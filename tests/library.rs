use raytracer::path::{advance, start, Outcome, Step, MAX_REFLECTION_DEPTH};
use raytracer::scan::{pixel_at, scan_index, scan_order};
use raytracer::scene_name::{scene_from_folded, SceneName};
use raytracer::schedule::{samples_per_worker, worker_count};

#[test]
fn samples_split_evenly() {
    assert_eq!(samples_per_worker(50, 1), 50);
    assert_eq!(samples_per_worker(48, 4), 12);
    assert_eq!(samples_per_worker(50, 4), 12);
    assert_eq!(samples_per_worker(3, 4), 0);
}

#[test]
fn split_keeps_total_when_divisible() {
    for workers in [1usize, 2, 4, 8] {
        let per_worker = samples_per_worker(64, workers);
        assert_eq!(per_worker * workers, 64);
    }
    assert_eq!(samples_per_worker(1, 1) * 1, 1);
    assert_eq!(samples_per_worker(4, 4) * 4, samples_per_worker(4, 1));
}

#[test]
fn requested_worker_count_is_kept() {
    assert_eq!(worker_count(Some(4)), 4);
    assert_eq!(worker_count(Some(1)), 1);
}

#[test]
fn default_worker_count_is_core_count() {
    assert_eq!(worker_count(None), num_cpus::get());
    assert!(worker_count(None) >= 1);
}

#[test]
fn scan_order_top_row_first() {
    let order = scan_order(3, 2);
    assert_eq!(order, vec![(0, 1), (1, 1), (2, 1), (0, 0), (1, 0), (2, 0)]);
}

#[test]
fn scan_order_empty_image() {
    assert!(scan_order(0, 5).is_empty());
    assert!(scan_order(4, 0).is_empty());
}

#[test]
fn pixel_and_index_agree() {
    let (w, h) = (4usize, 3usize);
    let order = scan_order(w, h);
    for (k, &(i, j)) in order.iter().enumerate() {
        assert_eq!(pixel_at(k, w, h), (i, j));
        assert_eq!(scan_index(i, j, w, h), k);
    }
    assert_eq!(pixel_at(0, w, h), (0, 2));
    assert_eq!(pixel_at(11, w, h), (3, 0));
    assert_eq!(scan_index(1, 2, w, h), 1);
}

#[test]
fn spent_budget_is_black() {
    assert_eq!(start(0), Step::Black);
    assert_eq!(start(1), Step::Trace(1));
    assert_eq!(start(MAX_REFLECTION_DEPTH), Step::Trace(50));
}

#[test]
fn outcomes_decide_next_step() {
    assert_eq!(advance(5, Outcome::Miss), Step::Sky);
    assert_eq!(advance(5, Outcome::Absorbed), Step::Black);
    assert_eq!(advance(5, Outcome::Scattered), Step::Trace(4));
    assert_eq!(advance(1, Outcome::Scattered), Step::Black);
    assert_eq!(advance(1, Outcome::Miss), Step::Sky);
}

#[test]
fn path_never_exceeds_budget() {
    let mut step = start(MAX_REFLECTION_DEPTH);
    let mut traced = 0usize;
    while let Step::Trace(depth) = step {
        traced += 1;
        step = advance(depth, Outcome::Scattered);
    }
    assert_eq!(traced, MAX_REFLECTION_DEPTH);
    assert_eq!(step, Step::Black);
}

#[test]
fn scene_names_ignore_case() {
    assert_eq!(SceneName::parse("field"), Ok(SceneName::Field));
    assert_eq!(SceneName::parse("FiElD"), Ok(SceneName::Field));
    assert_eq!("FIELD".parse::<SceneName>(), Ok(SceneName::Field));
}

#[test]
fn unknown_scene_is_refused() {
    assert_eq!(SceneName::parse("meadow"), Err("Unknown scene."));
    assert_eq!(SceneName::parse(""), Err("Unknown scene."));
    assert_eq!(SceneName::parse("fields"), Err("Unknown scene."));
}

#[test]
fn folded_lookup_is_exact() {
    assert_eq!(scene_from_folded("field"), Some(SceneName::Field));
    assert_eq!(scene_from_folded("Field"), None);
    assert_eq!(scene_from_folded("fiel"), None);
}
