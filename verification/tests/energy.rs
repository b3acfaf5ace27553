use nbody::energy::{advance_indices, get_line_idx, MissingTime, Placement};

fn place_at(t: f64) -> impl Fn(&f64) -> Placement {
    move |s: &f64| {
        if *s == t {
            Placement::At
        } else if *s > t {
            Placement::After
        } else {
            Placement::Before
        }
    }
}

#[test]
fn line_index_exact_sample() {
    let path = [0.0, 0.5, 1.0, 1.5];
    assert_eq!(get_line_idx(&path, 0, &place_at(1.0)), Some(2));
}

#[test]
fn line_index_between_samples_gives_segment_start() {
    let path = [0.0, 0.5, 1.0, 1.5];
    assert_eq!(get_line_idx(&path, 0, &place_at(0.7)), Some(1));
}

#[test]
fn line_index_before_first_sample_gives_first() {
    let path = [1.0, 2.0];
    assert_eq!(get_line_idx(&path, 0, &place_at(0.25)), Some(0));
}

#[test]
fn line_index_after_last_sample_is_none() {
    let path = [0.0, 0.5, 1.0];
    assert_eq!(get_line_idx(&path, 0, &place_at(3.0)), None);
}

#[test]
fn line_index_search_starts_at_hint() {
    let path = [0.0, 0.5, 1.0, 1.5];
    // Searching from 3 skips earlier samples: the first sample considered
    // already lies after 0.7, so the segment before it is returned.
    assert_eq!(get_line_idx(&path, 3, &place_at(0.7)), Some(2));
    assert_eq!(get_line_idx(&path, 4, &place_at(0.7)), None);
    assert_eq!(get_line_idx(&path, 9, &place_at(0.7)), None);
}

#[test]
fn line_index_empty_path() {
    let path: [f64; 0] = [];
    assert_eq!(get_line_idx(&path, 0, &place_at(0.0)), None);
}

#[test]
fn indices_all_advance_when_every_object_has_data() {
    let paths: Vec<Vec<f64>> = vec![vec![0.0, 1.0, 2.0], vec![0.0, 0.5, 1.0, 1.5, 2.0]];
    let t = 1.0;
    let locate = |i: usize, from: usize| get_line_idx(&paths[i], from, &place_at(t));
    let mut indices = vec![0, 0];
    assert_eq!(advance_indices(&mut indices, &locate), Ok(()));
    assert_eq!(indices, vec![1, 2]);
}

#[test]
fn indices_stop_at_first_object_without_data() {
    let paths: Vec<Vec<f64>> = vec![vec![0.0, 1.0, 2.0], vec![0.0, 0.5], vec![0.0, 1.0, 2.0]];
    let t = 2.0;
    let locate = |i: usize, from: usize| get_line_idx(&paths[i], from, &place_at(t));
    let mut indices = vec![0, 1, 0];
    assert_eq!(advance_indices(&mut indices, &locate), Err(MissingTime));
    // The first object moved; the one without data and those after it did not.
    assert_eq!(indices, vec![2, 1, 0]);
}

#[test]
fn indices_of_no_objects() {
    let locate = |_i: usize, _from: usize| -> Option<usize> { None };
    let mut indices: Vec<usize> = vec![];
    assert_eq!(advance_indices(&mut indices, &locate), Ok(()));
}
