use tracker::action::Action;
use tracker::components::sampler::SamplerWidgit;
use tracker::components::tab::FocusedTab;

fn counting(from: u32, n: u32) -> Vec<u32> {
    (from..from + n).collect()
}

#[test]
fn new_sampler_shows_initial_points() {
    let s = SamplerWidgit::new(counting(0, 200), counting(1000, 200));
    assert!(!s.is_active());
    assert_eq!(s.data1(), &counting(0, 200));
    assert_eq!(s.data2(), &counting(1000, 200));
    assert_eq!(s.window_start(), 0);
}

#[test]
fn points_needed_per_action() {
    assert_eq!(SamplerWidgit::<u32>::points_needed(&Action::Tick), (5, 10));
    assert_eq!(SamplerWidgit::<u32>::points_needed(&Action::Render), (0, 0));
    assert_eq!(SamplerWidgit::<u32>::points_needed(&Action::Quit), (0, 0));
}

#[test]
fn tick_slides_windows() {
    let mut s = SamplerWidgit::new(counting(0, 200), counting(1000, 200));
    assert_eq!(s.update(&Action::Tick, counting(200, 5), counting(1200, 10)), None);
    assert_eq!(s.data1(), &counting(5, 200));
    assert_eq!(s.data2(), &counting(1010, 200));
    assert_eq!(s.window_start(), 1);
}

#[test]
fn two_ticks_show_latest_points() {
    let mut s = SamplerWidgit::new(counting(0, 200), counting(1000, 200));
    s.update(&Action::Tick, counting(200, 5), counting(1200, 10));
    s.update(&Action::Tick, counting(205, 5), counting(1210, 10));
    assert_eq!(s.data1(), &counting(10, 200));
    assert_eq!(s.data2(), &counting(1020, 200));
    assert_eq!(s.data1().len(), 200);
    assert_eq!(s.window_start(), 2);
}

#[test]
fn sampler_follows_focus() {
    let mut s = SamplerWidgit::new(counting(0, 200), counting(0, 200));
    s.update(&Action::TabFocus(FocusedTab::Sampler), vec![], vec![]);
    assert!(s.is_active());
    s.update(&Action::Render, vec![], vec![]);
    assert!(s.is_active());
    assert_eq!(s.window_start(), 0);
    s.update(&Action::TabFocus(FocusedTab::Files), vec![], vec![]);
    assert!(!s.is_active());
    assert_eq!(s.data1(), &counting(0, 200));
}
