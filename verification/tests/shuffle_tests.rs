use winc::shuffle::bgra_to_rgba;

#[test]
fn reorder_swaps_blue_and_red_exactly() {
    let mut data: Vec<u8> = vec![1, 2, 3, 4, 10, 20, 30, 40];
    bgra_to_rgba(&mut data);
    assert_eq!(data, vec![3, 2, 1, 4, 30, 20, 10, 40]);
}

#[test]
fn reorder_is_its_own_inverse() {
    let cases: Vec<Vec<u8>> = vec![
        vec![],
        vec![9, 8, 7, 6],
        vec![1, 2, 3, 4, 5, 6, 7, 8, 9, 10, 11, 12],
        (0u8..=255).collect::<Vec<u8>>(),
    ];
    for original in cases {
        assert_eq!(original.len() % 4, 0);
        let mut data = original.clone();
        bgra_to_rgba(&mut data);
        bgra_to_rgba(&mut data);
        assert_eq!(data, original);
    }
}

#[test]
fn reorder_keeps_length_and_green_alpha() {
    let original: Vec<u8> = (0u8..40).collect();
    let mut data = original.clone();
    bgra_to_rgba(&mut data);
    assert_eq!(data.len(), original.len());
    for i in 0..data.len() {
        if i % 4 == 1 || i % 4 == 3 {
            assert_eq!(data[i], original[i]);
        }
    }
}

#[test]
fn reorder_of_empty_buffer_is_empty() {
    let mut data: Vec<u8> = Vec::new();
    bgra_to_rgba(&mut data);
    assert!(data.is_empty());
}
