use tracker::components::sampler::SamplerWidgit;
use tracker::components::sequencer::SequencerWidgit;
use tracker::action::Action;
use tracker::components::audiotest::AudioTest;
use tracker::components::files::FilesWidgit;
use tracker::components::tab::{FocusedTab, TabHandler};
use tracker::key::Key;

#[test]
fn default_focus_is_test() {
    assert_eq!(FocusedTab::default(), FocusedTab::Test);
    assert_eq!(TabHandler::new().focus(), FocusedTab::Test);
}

#[test]
fn digit_keys_focus_tabs() {
    let mut h = TabHandler::new();
    let cases = [
        ('1', FocusedTab::Sequencer),
        ('2', FocusedTab::Sampler),
        ('3', FocusedTab::Files),
        ('0', FocusedTab::Test),
    ];
    for (c, tab) in cases {
        let a = h.handle_key_event(Key::Char(c));
        assert_eq!(a, Some(Action::TabFocus(tab.clone())));
        assert_eq!(h.focus(), tab);
    }
}

#[test]
fn other_keys_keep_focus() {
    let mut h = TabHandler::new();
    h.handle_key_event(Key::Char('2'));
    assert_eq!(h.handle_key_event(Key::Char('4')), None);
    assert_eq!(h.handle_key_event(Key::Left), None);
    assert_eq!(h.focus(), FocusedTab::Sampler);
    assert_eq!(h.update(&Action::Tick), None);
    assert_eq!(h.focus(), FocusedTab::Sampler);
}

#[test]
fn files_follow_focus() {
    let mut f = FilesWidgit::new();
    assert!(!f.is_active());
    assert_eq!(f.update(&Action::TabFocus(FocusedTab::Files)), None);
    assert!(f.is_active());
    assert_eq!(f.handle_key_event(Key::Char('h')), None);
    assert!(f.is_active());
    f.update(&Action::Render);
    assert!(f.is_active());
    f.update(&Action::TabFocus(FocusedTab::Test));
    assert!(!f.is_active());
}

#[test]
fn audio_test_plays_on_a_only() {
    let mut t = AudioTest::new();
    assert!(t.handle_key_event(Key::Char('a')));
    assert!(!t.handle_key_event(Key::Char('b')));
    assert!(!t.handle_key_event(Key::Esc));
    assert_eq!(t.update(&Action::Tick), None);
}

#[test]
fn one_widget_in_front_after_focus() {
    let mut h = TabHandler::new();
    let mut seq = SequencerWidgit::new();
    let mut files = FilesWidgit::new();
    let mut sampler: SamplerWidgit<u32> = SamplerWidgit::new(vec![0; 200], vec![0; 200]);
    for c in ['1', '2', '3', '0'] {
        let a = h.handle_key_event(Key::Char(c)).unwrap();
        seq.update(&a);
        files.update(&a);
        sampler.update(&a, vec![], vec![]);
        let count = [seq.is_active(), files.is_active(), sampler.is_active()]
            .iter()
            .filter(|b| **b)
            .count();
        assert_eq!(count, if c == '0' { 0 } else { 1 });
        assert_eq!(seq.is_active(), c == '1');
        assert_eq!(sampler.is_active(), c == '2');
        assert_eq!(files.is_active(), c == '3');
    }
}

#[test]
fn defaults_match_new() {
    assert_eq!(TabHandler::default().focus(), FocusedTab::Test);
    assert!(!FilesWidgit::default().is_active());
    let mut t = AudioTest::default();
    assert!(t.handle_key_event(Key::Char('a')));
}
