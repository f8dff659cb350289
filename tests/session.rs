use feel::{is_affirmative, Action, Event, Options, Session, TouchError};

fn options(path_count: usize, quiet: bool, interactive: bool) -> Options {
    Options { path_count, quiet, interactive }
}

/// Feeds `events` to a fresh session and returns every action it asked for,
/// the first one included.
fn actions(opts: Options, events: &[Event]) -> Vec<Action> {
    let mut s = Session::new(opts);
    let mut out = vec![s.action()];
    for e in events {
        out.push(s.advance(*e));
    }
    out
}

fn reports(acts: &[Action]) -> Vec<(usize, bool)> {
    acts.iter()
        .filter_map(|a| match a {
            Action::Report { index, banner } => Some((*index, *banner)),
            _ => None,
        })
        .collect()
}

#[test]
fn answer_y_and_upper_y_accept() {
    assert!(is_affirmative(Some(b'y')));
    assert!(is_affirmative(Some(b'Y')));
}

#[test]
fn answer_anything_else_declines() {
    assert!(!is_affirmative(None));
    assert!(!is_affirmative(Some(b'n')));
    assert!(!is_affirmative(Some(b'\n')));
    assert!(!is_affirmative(Some(b'x')));
    assert!(!is_affirmative(Some(0xff)));
}

#[test]
fn empty_input_finishes_at_once() {
    let mut s = Session::new(options(0, false, true));
    assert_eq!(s.action(), Action::Finish(Ok(())));
    assert_eq!(s.advance(Event::Succeeded), Action::Finish(Ok(())));
    assert_eq!(s.advance(Event::Failed), Action::Finish(Ok(())));
}

#[test]
fn single_path_full_sequence() {
    let acts = actions(
        options(1, false, false),
        &[Event::Succeeded, Event::Succeeded, Event::Succeeded, Event::Succeeded],
    );
    assert_eq!(
        acts,
        vec![
            Action::CreateParentDir(0),
            Action::OpenAppend(0),
            Action::SetTimesNow(0),
            Action::Report { index: 0, banner: true },
            Action::Finish(Ok(())),
        ]
    );
}

#[test]
fn interactive_missing_path_is_not_confirmed() {
    let acts = actions(options(1, false, true), &[Event::Exists(false)]);
    assert_eq!(acts, vec![Action::CheckExists(0), Action::CreateParentDir(0)]);
}

#[test]
fn interactive_existing_path_accepted() {
    let acts = actions(
        options(1, false, true),
        &[
            Event::Exists(true),
            Event::Answer(Some(b'Y')),
            Event::Succeeded,
            Event::Succeeded,
            Event::Succeeded,
            Event::Succeeded,
        ],
    );
    assert_eq!(
        acts,
        vec![
            Action::CheckExists(0),
            Action::Confirm(0),
            Action::CreateParentDir(0),
            Action::OpenAppend(0),
            Action::SetTimesNow(0),
            Action::Report { index: 0, banner: true },
            Action::Finish(Ok(())),
        ]
    );
}

#[test]
fn decline_skips_path_entirely() {
    for answer in [None, Some(b'n'), Some(b'\n')] {
        let acts = actions(
            options(2, false, true),
            &[Event::Exists(true), Event::Answer(answer)],
        );
        assert_eq!(
            acts,
            vec![Action::CheckExists(0), Action::Confirm(0), Action::CheckExists(1)]
        );
    }
}

#[test]
fn decline_of_last_path_ends_run() {
    let acts = actions(
        options(1, false, true),
        &[Event::Exists(true), Event::Answer(None)],
    );
    assert_eq!(acts.last(), Some(&Action::Finish(Ok(()))));
    assert!(reports(&acts).is_empty());
}

#[test]
fn banner_follows_first_success_not_first_position() {
    // The first path is declined; the banner comes with the second.
    let acts = actions(
        options(2, false, true),
        &[
            Event::Exists(true),
            Event::Answer(Some(b'n')),
            Event::Exists(false),
            Event::Succeeded,
            Event::Succeeded,
            Event::Succeeded,
            Event::Succeeded,
        ],
    );
    assert_eq!(reports(&acts), vec![(1, true)]);
    assert_eq!(acts.last(), Some(&Action::Finish(Ok(()))));
}

#[test]
fn banner_exactly_once_over_three_paths() {
    let ok = [Event::Succeeded; 12];
    let acts = actions(options(3, false, false), &ok);
    assert_eq!(reports(&acts), vec![(0, true), (1, false), (2, false)]);
    assert_eq!(acts.last(), Some(&Action::Finish(Ok(()))));
}

#[test]
fn quiet_asks_for_no_report() {
    let ok = [Event::Succeeded; 6];
    let acts = actions(options(2, true, false), &ok);
    assert!(reports(&acts).is_empty());
    assert!(!acts.iter().any(|a| matches!(a, Action::Confirm(_))));
    assert_eq!(
        acts,
        vec![
            Action::CreateParentDir(0),
            Action::OpenAppend(0),
            Action::SetTimesNow(0),
            Action::CreateParentDir(1),
            Action::OpenAppend(1),
            Action::SetTimesNow(1),
            Action::Finish(Ok(())),
        ]
    );
}

#[test]
fn fail_fast_on_second_directory() {
    let acts = actions(
        options(3, false, false),
        &[
            Event::Succeeded,
            Event::Succeeded,
            Event::Succeeded,
            Event::Succeeded,
            Event::Failed,
            Event::Succeeded,
            Event::Succeeded,
        ],
    );
    assert_eq!(
        acts,
        vec![
            Action::CreateParentDir(0),
            Action::OpenAppend(0),
            Action::SetTimesNow(0),
            Action::Report { index: 0, banner: true },
            Action::CreateParentDir(1),
            Action::Finish(Err(TouchError::DirectoryCreateFailed(1))),
            Action::Finish(Err(TouchError::DirectoryCreateFailed(1))),
            Action::Finish(Err(TouchError::DirectoryCreateFailed(1))),
        ]
    );
    assert!(!acts.iter().any(|a| matches!(a, Action::CreateParentDir(2))));
}

#[test]
fn open_failure_is_reported() {
    let acts = actions(options(2, false, false), &[Event::Succeeded, Event::Failed]);
    assert_eq!(
        acts.last(),
        Some(&Action::Finish(Err(TouchError::FileOpenFailed(0))))
    );
}

#[test]
fn timestamp_failure_is_reported() {
    let acts = actions(
        options(1, true, false),
        &[Event::Succeeded, Event::Succeeded, Event::Failed],
    );
    assert_eq!(
        acts.last(),
        Some(&Action::Finish(Err(TouchError::TimestampUpdateFailed(0))))
    );
}

#[test]
fn largest_path_count_first_step() {
    let mut s = Session::new(options(usize::MAX, false, false));
    assert_eq!(s.action(), Action::CreateParentDir(0));
    assert_eq!(s.advance(Event::Succeeded), Action::OpenAppend(0));
}
