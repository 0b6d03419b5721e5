use idalon::stats::median_positions;

fn mean(values: &[f32]) -> f32 {
    let sum = values.iter().fold(0f32, |carry, value| carry + value);
    sum / values.len() as f32
}

fn median(values: &[f32]) -> f32 {
    let (first, end) = median_positions(values.len());
    mean(&values[first..end])
}

#[test]
fn it_finds_median() {
    let nights = vec![1f32, 2f32, 2f32, 2f32, 2f32, 10f32];
    assert_eq!(median(&nights), 2f32);
}

#[test]
fn an_odd_length_takes_the_middle_value_alone() {
    assert_eq!(median_positions(1), (0, 1));
    assert_eq!(median_positions(3), (1, 2));
    assert_eq!(median_positions(5), (2, 3));
    assert_eq!(median_positions(7), (3, 4));
    assert_eq!(median(&[7f32]), 7f32);
    assert_eq!(median(&[1f32, 2f32, 3f32, 4f32, 5f32]), 3f32);
}

#[test]
fn an_even_length_takes_the_two_middle_values() {
    assert_eq!(median_positions(2), (0, 2));
    assert_eq!(median_positions(4), (1, 3));
    assert_eq!(median_positions(6), (2, 4));
    assert_eq!(median_positions(8), (3, 5));
    assert_eq!(median(&[1f32, 3f32]), 2f32);
    assert_eq!(median(&[1f32, 3f32, 4f32, 9f32]), 3.5f32);
}

#[test]
fn the_positions_lie_about_the_middle_of_the_list() {
    for len in 1usize..200 {
        let (first, end) = median_positions(len);
        assert!(first < end);
        assert!(end <= len);
        assert_eq!(first + end, len);
        assert_eq!(end - first, if len % 2 == 1 { 1 } else { 2 });
    }
}
