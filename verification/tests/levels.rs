use primemh::levels::get_attached_levels;

#[test]
fn town_of_act_one_is_stitched_with_its_areas() {
    assert_eq!(get_attached_levels(&1), vec![1, 2, 3, 4, 17]);
    assert_eq!(get_attached_levels(&17), vec![1, 2, 3, 4, 17]);
}

#[test]
fn each_group_is_returned_for_all_its_members() {
    let groups: Vec<Vec<u32>> = vec![
        vec![1, 2, 3, 4, 17],
        vec![5, 6, 7, 26, 27, 28],
        vec![32, 33],
        vec![40, 41, 42, 43, 44, 45],
        vec![75, 76, 77, 78, 79, 80, 81, 82, 83],
        vec![103, 104, 105, 106],
        vec![107, 108],
        vec![109, 110, 111, 112],
    ];
    for g in &groups {
        for l in g {
            assert_eq!(&get_attached_levels(l), g);
        }
    }
}

#[test]
fn other_levels_stand_alone() {
    assert_eq!(get_attached_levels(&8), vec![8]);
    assert_eq!(get_attached_levels(&0), vec![0]);
    assert_eq!(get_attached_levels(&46), vec![46]);
    assert_eq!(get_attached_levels(&u32::MAX), vec![u32::MAX]);
}
