use stone_guesses::sampling::{is_valid_sample, Sample, SampleError};

fn fill(sample: &mut Sample) {
    let mut draws: u32 = 0;
    while !sample.is_complete() {
        let index = sample.draw();
        assert!(index < sample.among());
        draws += 1;
        assert!(draws < 1_000_000);
    }
}

#[test]
fn begin_refuses_more_stones_than_there_are() {
    assert_eq!(Sample::begin(3, 2).err(), Some(SampleError::TooLarge { size: 3, among: 2 }));
    assert_eq!(Sample::begin(1, 0).err(), Some(SampleError::TooLarge { size: 1, among: 0 }));
    assert_eq!(
        Sample::begin(usize::MAX, 5).err(),
        Some(SampleError::TooLarge { size: usize::MAX, among: 5 })
    );
}

#[test]
fn begin_takes_as_many_stones_as_there_are() {
    let sample = Sample::begin(2, 2).unwrap();
    assert_eq!(sample.size(), 2);
    assert_eq!(sample.among(), 2);
    assert_eq!(sample.len(), 0);
    assert!(!sample.is_complete());
}

#[test]
fn empty_sample_is_complete_at_once() {
    let sample = Sample::begin(0, 0).unwrap();
    assert!(sample.is_complete());
    assert_eq!(sample.inds(), Vec::<usize>::new());
    let sample = Sample::begin(0, 7).unwrap();
    assert!(sample.is_complete());
    assert_eq!(sample.inds(), Vec::<usize>::new());
}

#[test]
fn offer_takes_a_stone_once() {
    let mut sample = Sample::begin(2, 3).unwrap();
    assert!(sample.offer(1));
    assert_eq!(sample.len(), 1);
    assert!(!sample.offer(1));
    assert_eq!(sample.len(), 1);
    assert!(!sample.is_complete());
    assert!(sample.offer(2));
    assert_eq!(sample.len(), 2);
    assert!(sample.is_complete());
    let mut inds = sample.inds();
    inds.sort();
    assert_eq!(inds, vec![1, 2]);
}

#[test]
fn offer_keeps_size_and_population() {
    let mut sample = Sample::begin(3, 9).unwrap();
    sample.offer(8);
    sample.offer(0);
    assert_eq!(sample.size(), 3);
    assert_eq!(sample.among(), 9);
}

#[test]
fn draw_of_the_only_stone_is_that_stone() {
    let mut sample = Sample::begin(1, 1).unwrap();
    assert_eq!(sample.draw(), 0);
    assert!(sample.is_complete());
    assert_eq!(sample.inds(), vec![0]);
}

#[test]
fn draw_stays_below_the_number_of_stones() {
    for _ in 0..200 {
        let mut sample = Sample::begin(1, 3).unwrap();
        let index = sample.draw();
        assert!(index < 3);
        assert_eq!(sample.inds(), vec![index]);
    }
}

#[test]
fn draw_reaches_every_stone() {
    let mut seen = [false; 4];
    for _ in 0..400 {
        let mut sample = Sample::begin(1, 4).unwrap();
        seen[sample.draw()] = true;
    }
    assert_eq!(seen, [true; 4]);
}

#[test]
fn draw_adds_at_most_one_stone() {
    let mut sample = Sample::begin(3, 4).unwrap();
    let mut held = 0;
    while !sample.is_complete() {
        sample.draw();
        let now = sample.len();
        assert!(now == held || now == held + 1);
        held = now;
    }
    assert_eq!(held, 3);
}

#[test]
fn filled_sample_names_distinct_stones() {
    for size in 0..=6 {
        let mut sample = Sample::begin(size, 6).unwrap();
        fill(&mut sample);
        let inds = sample.inds();
        assert_eq!(inds.len(), size);
        assert!(is_valid_sample(&inds, 6));
        for (a, x) in inds.iter().enumerate() {
            assert!(*x < 6);
            for y in &inds[a + 1..] {
                assert_ne!(x, y);
            }
        }
    }
}

#[test]
fn sample_of_all_stones_names_each() {
    let mut sample = Sample::begin(5, 5).unwrap();
    fill(&mut sample);
    let mut inds = sample.inds();
    inds.sort();
    assert_eq!(inds, vec![0, 1, 2, 3, 4]);
}

#[test]
fn valid_sample_has_distinct_stones_in_range() {
    assert!(is_valid_sample(&vec![], 0));
    assert!(is_valid_sample(&vec![], 3));
    assert!(is_valid_sample(&vec![0, 2], 3));
    assert!(is_valid_sample(&vec![2, 0, 1], 3));
    assert!(!is_valid_sample(&vec![0, 0], 3));
    assert!(!is_valid_sample(&vec![1, 2, 1], 3));
    assert!(!is_valid_sample(&vec![3], 3));
    assert!(!is_valid_sample(&vec![0], 0));
    assert!(!is_valid_sample(&vec![0, 1, 5], 5));
}

#[test]
fn fill_without_draws_leaves_the_sample() {
    let mut sample = Sample::begin(2, 3).unwrap();
    sample.offer(1);
    assert!(!sample.fill(0));
    assert_eq!(sample.len(), 1);
    let mut empty = Sample::begin(0, 3).unwrap();
    assert!(empty.fill(0));
}

#[test]
fn fill_stops_at_a_complete_sample() {
    let mut sample = Sample::begin(2, 3).unwrap();
    sample.offer(0);
    sample.offer(2);
    assert!(sample.fill(1000));
    let mut inds = sample.inds();
    inds.sort();
    assert_eq!(inds, vec![0, 2]);
}

#[test]
fn fill_keeps_what_was_drawn() {
    let mut sample = Sample::begin(3, 8).unwrap();
    sample.offer(7);
    let mut rounds = 0;
    while !sample.fill(1) {
        assert!(sample.len() >= 1 && sample.len() < 3);
        rounds += 1;
        assert!(rounds < 1_000_000);
    }
    let inds = sample.inds();
    assert_eq!(inds.len(), 3);
    assert!(inds.contains(&7));
    assert!(is_valid_sample(&inds, 8));
}

#[test]
fn fill_makes_no_more_draws_than_allowed() {
    for _ in 0..100 {
        let mut sample = Sample::begin(5, 9).unwrap();
        assert!(!sample.fill(4));
        assert!(sample.len() >= 1 && sample.len() <= 4);
    }
}

#[test]
fn fill_completes_a_sample_of_all_stones() {
    let mut sample = Sample::begin(4, 4).unwrap();
    assert!(sample.fill(usize::MAX));
    let mut inds = sample.inds();
    inds.sort();
    assert_eq!(inds, vec![0, 1, 2, 3]);
}
