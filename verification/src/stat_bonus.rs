//! The stat-bonus table: maps a raw stat value (0..=18) to the modifier that
//! is added to a die roll.

use vstd::prelude::*;

verus! {

/// The bonus owed to a raw stat value, as a function on indices.
pub open spec fn stat_bonus_spec(i: int) -> int {
    if i <= 0 {
        -6
    } else if i == 1 {
        -4
    } else if i <= 3 {
        -3
    } else if i <= 5 {
        -2
    } else if i <= 7 {
        -1
    } else if i <= 9 {
        0
    } else if i <= 11 {
        1
    } else if i <= 13 {
        2
    } else if i <= 15 {
        3
    } else if i <= 17 {
        4
    } else {
        5
    }
}

/// Builds the whole table: 19 entries, indexed directly by a raw stat value.
pub fn create_all_stat_bonuses() -> (table: Vec<i32>)
    ensures
        table@.len() == 19,
        forall|i: int| 0 <= i < 19 ==> table@[i] == stat_bonus_spec(i),
        forall|i: int| 0 <= i < 19 ==> -6 <= #[trigger] table@[i] <= 5,
{
    let mut table: Vec<i32> = Vec::new();
    table.push(-6);
    let mut i: usize = 1;
    while i <= 18
        invariant
            1 <= i <= 19,
            table@.len() == i,
            forall|j: int| 0 <= j < i ==> table@[j] == stat_bonus_spec(j),
        decreases 19 - i,
    {
        let b: i32 = if i == 1 {
            -4
        } else if i <= 3 {
            -3
        } else if i <= 5 {
            -2
        } else if i <= 7 {
            -1
        } else if i <= 9 {
            0
        } else if i <= 11 {
            1
        } else if i <= 13 {
            2
        } else if i <= 15 {
            3
        } else if i <= 17 {
            4
        } else {
            5
        };
        table.push(b);
        i = i + 1;
    }
    proof {
        assert forall|j: int| 0 <= j < 19 implies -6 <= #[trigger] table@[j] <= 5 by {
            assert(table@[j] == stat_bonus_spec(j));
        }
    }
    table
}

/// The table never hands a smaller bonus to a larger stat value.
pub proof fn lemma_stat_bonus_monotone(i: int, j: int)
    requires
        0 <= i <= j < 19,
    ensures
        stat_bonus_spec(i) <= stat_bonus_spec(j),
{
}

} // verus!
