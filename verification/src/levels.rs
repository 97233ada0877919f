use vstd::prelude::*;

verus! {

/// The groups of level ids whose maps are drawn together (a town and the
/// areas stitched to it, or a multi-part area).
pub open spec fn level_group(level_id: u32) -> Seq<u32> {
    if level_id == 1 || level_id == 2 || level_id == 3 || level_id == 4 || level_id == 17 {
        seq![1u32, 2, 3, 4, 17]
    } else if level_id == 5 || level_id == 6 || level_id == 7 || level_id == 26 || level_id == 27
        || level_id == 28 {
        seq![5u32, 6, 7, 26, 27, 28]
    } else if level_id == 32 || level_id == 33 {
        seq![32u32, 33]
    } else if 40 <= level_id <= 45 {
        seq![40u32, 41, 42, 43, 44, 45]
    } else if 75 <= level_id <= 83 {
        seq![75u32, 76, 77, 78, 79, 80, 81, 82, 83]
    } else if 103 <= level_id <= 106 {
        seq![103u32, 104, 105, 106]
    } else if level_id == 107 || level_id == 108 {
        seq![107u32, 108]
    } else if 109 <= level_id <= 112 {
        seq![109u32, 110, 111, 112]
    } else {
        seq![level_id]
    }
}

/// The levels whose maps are drawn together with `level_id`.
pub fn get_attached_levels(level_id: &u32) -> (levels: Vec<u32>)
    ensures
        levels@ == level_group(*level_id),
{
    match *level_id {
        1 | 2 | 3 | 4 | 17 => vec![1, 2, 3, 4, 17],
        5 | 6 | 7 | 26 | 27 | 28 => vec![5, 6, 7, 26, 27, 28],
        32 | 33 => vec![32, 33],
        40 | 41 | 42 | 43 | 44 | 45 => vec![40, 41, 42, 43, 44, 45],
        75 | 76 | 77 | 78 | 79 | 80 | 81 | 82 | 83 => vec![75, 76, 77, 78, 79, 80, 81, 82, 83],
        103 | 104 | 105 | 106 => vec![103, 104, 105, 106],
        107 | 108 => vec![107, 108],
        109 | 110 | 111 | 112 => vec![109, 110, 111, 112],
        _ => vec![*level_id],
    }
}

/// Every level is drawn together with itself.
pub proof fn lemma_level_in_own_group(level_id: u32)
    ensures
        level_group(level_id).contains(level_id),
{
    let g = level_group(level_id);
    if level_id == 1 { assert(g[0] == level_id); }
    else if level_id == 2 { assert(g[1] == level_id); }
    else if level_id == 3 { assert(g[2] == level_id); }
    else if level_id == 4 { assert(g[3] == level_id); }
    else if level_id == 17 { assert(g[4] == level_id); }
    else if level_id == 5 { assert(g[0] == level_id); }
    else if level_id == 6 { assert(g[1] == level_id); }
    else if level_id == 7 { assert(g[2] == level_id); }
    else if level_id == 26 { assert(g[3] == level_id); }
    else if level_id == 27 { assert(g[4] == level_id); }
    else if level_id == 28 { assert(g[5] == level_id); }
    else if level_id == 32 || level_id == 33 { assert(g[level_id - 32] == level_id); }
    else if 40 <= level_id <= 45 { assert(g[level_id - 40] == level_id); }
    else if 75 <= level_id <= 83 { assert(g[level_id - 75] == level_id); }
    else if 103 <= level_id <= 106 { assert(g[level_id - 103] == level_id); }
    else if level_id == 107 || level_id == 108 { assert(g[level_id - 107] == level_id); }
    else if 109 <= level_id <= 112 { assert(g[level_id - 109] == level_id); }
    else { assert(g[0] == level_id); }
}

/// Grouping is an equivalence: any level drawn together with `level_id`
/// has exactly the same group of levels drawn with it.
pub proof fn lemma_level_group_closed(level_id: u32, other: u32)
    requires
        level_group(level_id).contains(other),
    ensures
        level_group(other) == level_group(level_id),
{
    let g = level_group(level_id);
    let i = choose|i: int| 0 <= i < g.len() && g[i] == other;
    assert(g[i] == other);
}

/// The level groups by the game's level ids: 1-4 and 17; 5-7 and 26-28;
/// 32-33; 40-45; 75-83; 103-106; 107-108; 109-112. Each level of a group is
/// drawn with the whole group; any other level is drawn alone.
pub proof fn lemma_level_groups(other: u32)
    requires
        other != 1,
        other != 2,
        other != 3,
        other != 4,
        other != 17,
        other != 5,
        other != 6,
        other != 7,
        other != 26,
        other != 27,
        other != 28,
        other != 32,
        other != 33,
        other != 40,
        other != 41,
        other != 42,
        other != 43,
        other != 44,
        other != 45,
        other != 75,
        other != 76,
        other != 77,
        other != 78,
        other != 79,
        other != 80,
        other != 81,
        other != 82,
        other != 83,
        other != 103,
        other != 104,
        other != 105,
        other != 106,
        other != 107,
        other != 108,
        other != 109,
        other != 110,
        other != 111,
        other != 112,
    ensures
        level_group(1) =~= seq![1u32, 2u32, 3u32, 4u32, 17u32],
        level_group(2) =~= seq![1u32, 2u32, 3u32, 4u32, 17u32],
        level_group(3) =~= seq![1u32, 2u32, 3u32, 4u32, 17u32],
        level_group(4) =~= seq![1u32, 2u32, 3u32, 4u32, 17u32],
        level_group(17) =~= seq![1u32, 2u32, 3u32, 4u32, 17u32],
        level_group(5) =~= seq![5u32, 6u32, 7u32, 26u32, 27u32, 28u32],
        level_group(6) =~= seq![5u32, 6u32, 7u32, 26u32, 27u32, 28u32],
        level_group(7) =~= seq![5u32, 6u32, 7u32, 26u32, 27u32, 28u32],
        level_group(26) =~= seq![5u32, 6u32, 7u32, 26u32, 27u32, 28u32],
        level_group(27) =~= seq![5u32, 6u32, 7u32, 26u32, 27u32, 28u32],
        level_group(28) =~= seq![5u32, 6u32, 7u32, 26u32, 27u32, 28u32],
        level_group(32) =~= seq![32u32, 33u32],
        level_group(33) =~= seq![32u32, 33u32],
        level_group(40) =~= seq![40u32, 41u32, 42u32, 43u32, 44u32, 45u32],
        level_group(41) =~= seq![40u32, 41u32, 42u32, 43u32, 44u32, 45u32],
        level_group(42) =~= seq![40u32, 41u32, 42u32, 43u32, 44u32, 45u32],
        level_group(43) =~= seq![40u32, 41u32, 42u32, 43u32, 44u32, 45u32],
        level_group(44) =~= seq![40u32, 41u32, 42u32, 43u32, 44u32, 45u32],
        level_group(45) =~= seq![40u32, 41u32, 42u32, 43u32, 44u32, 45u32],
        level_group(75) =~= seq![75u32, 76u32, 77u32, 78u32, 79u32, 80u32, 81u32, 82u32, 83u32],
        level_group(76) =~= seq![75u32, 76u32, 77u32, 78u32, 79u32, 80u32, 81u32, 82u32, 83u32],
        level_group(77) =~= seq![75u32, 76u32, 77u32, 78u32, 79u32, 80u32, 81u32, 82u32, 83u32],
        level_group(78) =~= seq![75u32, 76u32, 77u32, 78u32, 79u32, 80u32, 81u32, 82u32, 83u32],
        level_group(79) =~= seq![75u32, 76u32, 77u32, 78u32, 79u32, 80u32, 81u32, 82u32, 83u32],
        level_group(80) =~= seq![75u32, 76u32, 77u32, 78u32, 79u32, 80u32, 81u32, 82u32, 83u32],
        level_group(81) =~= seq![75u32, 76u32, 77u32, 78u32, 79u32, 80u32, 81u32, 82u32, 83u32],
        level_group(82) =~= seq![75u32, 76u32, 77u32, 78u32, 79u32, 80u32, 81u32, 82u32, 83u32],
        level_group(83) =~= seq![75u32, 76u32, 77u32, 78u32, 79u32, 80u32, 81u32, 82u32, 83u32],
        level_group(103) =~= seq![103u32, 104u32, 105u32, 106u32],
        level_group(104) =~= seq![103u32, 104u32, 105u32, 106u32],
        level_group(105) =~= seq![103u32, 104u32, 105u32, 106u32],
        level_group(106) =~= seq![103u32, 104u32, 105u32, 106u32],
        level_group(107) =~= seq![107u32, 108u32],
        level_group(108) =~= seq![107u32, 108u32],
        level_group(109) =~= seq![109u32, 110u32, 111u32, 112u32],
        level_group(110) =~= seq![109u32, 110u32, 111u32, 112u32],
        level_group(111) =~= seq![109u32, 110u32, 111u32, 112u32],
        level_group(112) =~= seq![109u32, 110u32, 111u32, 112u32],
        level_group(other) =~= seq![other],
{
}

} // verus!
