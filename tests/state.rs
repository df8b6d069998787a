use std::cmp::Ordering;
use rmpc::cli::{Level, OnOff};
use rmpc::connection::{Action, Connection, ConnectionState, Event, RetryPolicy};
use rmpc::counter::{Adjust, Bound, CurrentIndex};
use rmpc::screens::{
    handle_filter_input, plan_common_action, BrowserStep, CommonAction, DirOrSong, FilterKey, Outcome,
    Screens, SongExt,
};
use rmpc::entities::Song;
use rmpc::theme::{
    PropertyFile, PropertyKindFileOrText, SongFormatFile, SongProperty, SongPropertyFile, StatusProperty,
    StatusPropertyFile,
};

fn policy() -> RetryPolicy {
    RetryPolicy { first_delay_ms: 100, max_delay_ms: 350, max_attempts: 3 }
}

fn idle_connection() -> Connection {
    let mut c = Connection::new(false, policy());
    assert_eq!(c.step(Event::Start), Action::Open);
    assert_eq!(c.step(Event::Opened), Action::SendIdle);
    assert_eq!(c.state, ConnectionState::Idle);
    c
}

#[test]
fn counter_saturates() {
    let mut c = CurrentIndex::new(u32::MAX - 1);
    c.inc();
    assert_eq!(*c.value(), u32::MAX);
    c.inc();
    assert_eq!(*c.value(), u32::MAX);
    c.inc_by(10);
    assert_eq!(*c.value(), u32::MAX);
    c.set_value(3);
    c.dec_by(5);
    assert_eq!(*c.value(), 0);
    c.dec();
    assert_eq!(*c.value(), 0);
    c.inc_by(7);
    c.dec();
    assert_eq!(*c.value(), 6);
}

#[test]
fn counter_stays_in_range_over_many_changes() {
    let mut c = CurrentIndex::new(5);
    let steps = [Adjust::DecBy(9), Adjust::Inc, Adjust::IncBy(u32::MAX), Adjust::Inc, Adjust::Dec, Adjust::DecBy(2)];
    for s in steps {
        c.adjust(s);
    }
    assert_eq!(c.0, u32::MAX - 3);
}

#[test]
fn command_waits_for_cancelled_idle() {
    let mut c = idle_connection();
    assert_eq!(c.step(Event::Request), Action::CancelIdle);
    assert_eq!(c.state, ConnectionState::Busy);
    assert_eq!(c.step(Event::Request), Action::RejectBusy);
    assert_eq!(c.step(Event::ResponseDone), Action::Nothing);
    assert_eq!(c.step(Event::IdleReturned), Action::SendCommand);
    assert_eq!(c.step(Event::ResponseDone), Action::SendIdle);
    assert_eq!(c.state, ConnectionState::Idle);
    assert!(c.idle_pending);
}

#[test]
fn idle_changes_are_delivered() {
    let mut c = idle_connection();
    assert_eq!(c.step(Event::IdleReturned), Action::DeliverChanges);
    assert_eq!(c.state, ConnectionState::Idle);
}

#[test]
fn password_is_sent_and_rejection_reported() {
    let mut c = Connection::new(true, policy());
    c.step(Event::Start);
    assert_eq!(c.step(Event::Opened), Action::SendPassword);
    assert_eq!(c.state, ConnectionState::Authenticating);
    assert_eq!(c.step(Event::AuthRejected), Action::ReportAuthError);
    assert_eq!(c.state, ConnectionState::Disconnected);
}

#[test]
fn reconnect_backs_off_then_gives_up() {
    let mut c = idle_connection();
    assert_eq!(c.step(Event::TransportFailed), Action::Wait(100));
    assert_eq!(c.step(Event::RetryDue), Action::Open);
    assert_eq!(c.step(Event::TransportFailed), Action::Wait(200));
    c.step(Event::RetryDue);
    assert_eq!(c.step(Event::TransportFailed), Action::Wait(350));
    c.step(Event::RetryDue);
    assert_eq!(c.step(Event::TransportFailed), Action::ReportFatal);
    assert_eq!(c.state, ConnectionState::Fatal);
}

#[test]
fn reconnect_resyncs_before_idling() {
    let mut c = idle_connection();
    c.step(Event::TransportFailed);
    c.step(Event::RetryDue);
    assert_eq!(c.step(Event::Opened), Action::Resync);
    assert_eq!(c.state, ConnectionState::Busy);
    assert_eq!(c.step(Event::ResponseDone), Action::SendIdle);
}

#[test]
fn request_without_connection_is_refused() {
    let mut c = Connection::new(false, policy());
    assert_eq!(c.step(Event::Request), Action::RejectDisconnected);
}

#[test]
fn screens_cycle() {
    assert_eq!(Screens::Queue.next(), Screens::Logs);
    assert_eq!(Screens::Playlists.next(), Screens::Queue);
    assert_eq!(Screens::Queue.prev(), Screens::Playlists);
    assert_eq!(Screens::Directories.prev(), Screens::Logs);
    let mut s = Screens::Artists;
    for _ in 0..6 {
        s = s.next();
    }
    assert_eq!(s, Screens::Artists);
    assert_eq!(Screens::Albums.next().prev(), Screens::Albums);
}

#[test]
fn dir_or_song_value() {
    assert_eq!(DirOrSong::Dir("music/a".to_string()).value(), "music/a");
    assert_eq!(DirOrSong::Song("b.flac".to_string()).value(), "b.flac");
}

#[test]
fn song_text_falls_back() {
    let mut s = Song::new();
    assert_eq!(s.title_str(), b"Untitled");
    assert_eq!(s.artist_str(), b"Untitled");
    s.title = Some(b"T".to_vec());
    assert_eq!(s.title_str(), b"T");
}

#[test]
fn status_property_defaults_labels() {
    match StatusProperty::from_file(StatusPropertyFile::Single) {
        StatusProperty::Single { on_label, off_label, oneshot_label } => {
            assert_eq!(on_label, "On");
            assert_eq!(off_label, "Off");
            assert_eq!(oneshot_label, "OS");
        }
        other => panic!("unexpected {:?}", other),
    }
    match StatusProperty::from_file(StatusPropertyFile::State) {
        StatusProperty::State { playing_label, paused_label, stopped_label } => {
            assert_eq!(playing_label, "Playing");
            assert_eq!(paused_label, "Paused");
            assert_eq!(stopped_label, "Stopped");
        }
        other => panic!("unexpected {:?}", other),
    }
    let r = StatusProperty::from_file(StatusPropertyFile::RepeatV2 {
        on_label: "yes".to_string(),
        off_label: "no".to_string(),
    });
    assert_eq!(r, StatusProperty::Repeat { on_label: "yes".to_string(), off_label: "no".to_string() });
    assert_eq!(StatusProperty::from_file(StatusPropertyFile::Bitrate), StatusProperty::Bitrate);
}

#[test]
fn song_property_keeps_other_name() {
    assert_eq!(
        SongProperty::from_file(SongPropertyFile::Other("genre".to_string())),
        SongProperty::Other("genre".to_string())
    );
    assert_eq!(SongProperty::from_file(SongPropertyFile::Track), SongProperty::Track);
}

#[test]
fn default_song_format() {
    let f = SongFormatFile::default();
    assert_eq!(f.0.len(), 2);
    match &f.0[1].kind {
        PropertyKindFileOrText::Group(g) => {
            assert_eq!(g.len(), 3);
            assert_eq!(g[1].kind, PropertyKindFileOrText::Text(" - ".to_string()));
        }
        other => panic!("unexpected {:?}", other),
    }
    assert!(f.0[1].default.is_some());
}

#[test]
fn cli_values_compare() {
    assert_ne!(Level::Info, Level::Warn);
    assert_eq!(OnOff::On, OnOff::On);
}

#[test]
fn old_idle_request_is_renewed() {
    let mut c = idle_connection();
    assert_eq!(c.step(Event::IdleExpired), Action::CancelIdle);
    assert_eq!(c.step(Event::IdleExpired), Action::Nothing);
    assert_eq!(c.step(Event::IdleReturned), Action::SendIdle);
    assert!(c.idle_pending);
    assert_eq!(c.state, ConnectionState::Idle);
}

#[test]
fn request_during_renewal_waits_for_drain() {
    let mut c = idle_connection();
    c.step(Event::IdleExpired);
    assert_eq!(c.step(Event::Request), Action::Nothing);
    assert_eq!(c.step(Event::IdleReturned), Action::SendCommand);
    assert_eq!(c.step(Event::ResponseDone), Action::SendIdle);
}

#[test]
fn listing_order_puts_directories_first() {
    let d = |s: &str| DirOrSong::Dir(s.to_string());
    let f = |s: &str| DirOrSong::Song(s.to_string());
    assert_eq!(d("b").cmp(&f("a")), Ordering::Less);
    assert_eq!(f("a").cmp(&d("b")), Ordering::Greater);
    assert_eq!(d("abc").cmp(&d("abd")), Ordering::Less);
    assert_eq!(f("ab").cmp(&f("a")), Ordering::Greater);
    assert_eq!(f("x").cmp(&f("x")), Ordering::Equal);
    assert_eq!(f("é").cmp(&f("z")), Ordering::Greater);
}

#[test]
fn common_actions_plan_steps() {
    let (steps, out) = plan_common_action(CommonAction::Down, false, true);
    assert_eq!(steps, vec![BrowserStep::SelectNext, BrowserStep::Preview]);
    assert_eq!(out, Outcome::RenderRequested);
    let (steps, out) = plan_common_action(CommonAction::Add, true, true);
    assert_eq!(steps, vec![BrowserStep::AddMarked]);
    assert_eq!(out, Outcome::RenderRequested);
    let (steps, out) = plan_common_action(CommonAction::Add, false, true);
    assert_eq!(steps, vec![BrowserStep::AddSelected]);
    assert_eq!(out, Outcome::FromStep);
    let (steps, out) = plan_common_action(CommonAction::Delete, false, false);
    assert!(steps.is_empty());
    assert_eq!(out, Outcome::SkipRender);
    let (steps, _) = plan_common_action(CommonAction::Select, false, true);
    assert_eq!(steps, vec![BrowserStep::ToggleMark, BrowserStep::SelectNext, BrowserStep::Preview]);
}

#[test]
fn filter_input_edits_filter() {
    let mut filter = Some(vec!['a']);
    let mut active = true;
    assert!(!handle_filter_input(&mut filter, &mut active, FilterKey::Char('b')));
    assert_eq!(filter, Some(vec!['a', 'b']));
    handle_filter_input(&mut filter, &mut active, FilterKey::Backspace);
    assert_eq!(filter, Some(vec!['a']));
    assert!(handle_filter_input(&mut filter, &mut active, FilterKey::Enter));
    assert!(!active);
    active = true;
    handle_filter_input(&mut filter, &mut active, FilterKey::Esc);
    assert_eq!(filter, None);
    assert!(!active);
}

#[test]
fn stickers_are_found_in_nested_groups() {
    let text = |s: &str| PropertyFile::<SongPropertyFile> {
        kind: PropertyKindFileOrText::Text(s.to_string()),
        default: None,
    };
    let sticker = PropertyFile::<SongPropertyFile> {
        kind: PropertyKindFileOrText::Sticker("rating".to_string()),
        default: None,
    };
    let inner = PropertyFile { kind: PropertyKindFileOrText::Group(vec![text("a"), sticker]), default: None };
    let outer = PropertyKindFileOrText::Group(vec![text("b"), inner]);
    assert!(outer.contains_stickers());
    let plain = PropertyKindFileOrText::Group(vec![text("b"), text("c")]);
    assert!(!plain.contains_stickers());
    assert!(!PropertyKindFileOrText::Property(SongPropertyFile::Title).contains_stickers());
    assert!(!SongFormatFile::default().0[1].kind.contains_stickers());
}

#[test]
fn listing_entries_sort_directories_first() {
    let mut v = vec![
        DirOrSong::Song("b".to_string()),
        DirOrSong::Dir("z".to_string()),
        DirOrSong::Song("a".to_string()),
        DirOrSong::Dir("c".to_string()),
    ];
    v.sort();
    assert_eq!(
        v,
        vec![
            DirOrSong::Dir("c".to_string()),
            DirOrSong::Dir("z".to_string()),
            DirOrSong::Song("a".to_string()),
            DirOrSong::Song("b".to_string()),
        ]
    );
    assert!(DirOrSong::Dir("z".to_string()) < DirOrSong::Song("a".to_string()));
    assert_eq!(
        DirOrSong::Song("x".to_string()).partial_cmp(&DirOrSong::Song("y".to_string())),
        Some(Ordering::Less)
    );
}

#[test]
fn counter_calls_chain() {
    let mut c = CurrentIndex::new(1);
    assert_eq!(*c.inc_by(4).value(), 5);
    assert_eq!(*c.dec().value(), 4);
    let mut v = rmpc::counter::Volume::new(100);
    assert_eq!(*v.dec_by(30).value(), 70);
    assert_eq!(*v.set_value(u32::MAX).value(), u32::MAX);
    assert_eq!(*v.inc().value(), u32::MAX);
}
