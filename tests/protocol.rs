use rmpc::client::{decode_changes, decode_song, decode_status};
use rmpc::command::{encode_list, Command};
use rmpc::decode::{decode_frames, FromMpd, LineHandled};
use rmpc::entities::{ChangeSet, PlayState, Song, Status};
use rmpc::response::{next_frame, parse_ack, read_response, Frame, MpdError};
use rmpc::wire::{parse_u32, split_line};
use rmpc::counter::CurrentIndex;

fn b(s: &str) -> Vec<u8> {
    s.as_bytes().to_vec()
}

#[test]
fn parse_u32_reads_digits() {
    assert_eq!(parse_u32(b"0"), Some(0));
    assert_eq!(parse_u32(b"50"), Some(50));
    assert_eq!(parse_u32(b"4294967295"), Some(u32::MAX));
}

#[test]
fn parse_u32_takes_plus_sign() {
    assert_eq!(parse_u32(b"+5"), Some(5));
    assert_eq!(parse_u32(b"+"), None);
    assert_eq!(parse_u32(b"++5"), None);
    assert_eq!(parse_u32(b"+4294967296"), None);
}

#[test]
fn parse_u32_rejects_bad_text() {
    assert_eq!(parse_u32(b""), None);
    assert_eq!(parse_u32(b"4294967296"), None);
    assert_eq!(parse_u32(b"12a"), None);
    assert_eq!(parse_u32(b"-1"), None);
}

#[test]
fn split_line_takes_first_colon() {
    assert_eq!(split_line(b"file: a: b.flac"), Some((b("file"), b("a: b.flac"))));
    assert_eq!(split_line(b"volume:50"), None);
    assert_eq!(split_line(b"novalue"), None);
}

#[test]
fn ack_line_gives_server_error() {
    let e = parse_ack(b"ACK [50@1] {play} No such song").unwrap();
    assert_eq!(e.code, 50);
    assert_eq!(e.command_index, 1);
    assert_eq!(e.command, b("play"));
    assert_eq!(e.message, b("No such song"));
}

#[test]
fn ack_response_is_surfaced() {
    match read_response(b"ACK [50@1] {play} No such song\n", 0) {
        Err(MpdError::Server(e)) => {
            assert_eq!(e.code, 50);
            assert_eq!(e.command_index, 1);
            assert_eq!(e.command, b("play"));
            assert_eq!(e.message, b("No such song"));
        }
        other => panic!("unexpected {:?}", other),
    }
}

#[test]
fn malformed_ack_is_protocol_error() {
    assert!(parse_ack(b"ACK [x@1] {play} m").is_none());
    assert!(matches!(read_response(b"ACK nonsense\n", 0), Err(MpdError::Protocol)));
}

#[test]
fn status_response_decodes() {
    let s = decode_status(b"volume: 50\nrepeat: 0\nOK\n").unwrap();
    assert_eq!(s.volume.0, 50);
    assert!(!s.repeat);
    assert_eq!(s.state, PlayState::Stop);
}

#[test]
fn status_with_all_fields() {
    let s = decode_status(b"volume: 7\nrepeat: 1\nrandom: 1\nconsume: 0\nstate: play\nsong: 3\nOK\n").unwrap();
    assert_eq!(s.volume.0, 7);
    assert!(s.repeat);
    assert!(s.random);
    assert!(!s.consume);
    assert_eq!(s.state, PlayState::Play);
    assert_eq!(s.others, vec![(b("song"), b("3"))]);
}

#[test]
fn status_bad_volume_is_parse_error() {
    match decode_status(b"volume: loud\nOK\n") {
        Err(MpdError::Parse { key, value }) => {
            assert_eq!(key, b("volume"));
            assert_eq!(value, b("loud"));
        }
        other => panic!("unexpected {:?}", other),
    }
}

#[test]
fn missing_terminator_is_protocol_error() {
    assert!(matches!(decode_status(b"volume: 50\n"), Err(MpdError::Protocol)));
    assert!(matches!(decode_status(b"volume: 50"), Err(MpdError::Protocol)));
    assert!(matches!(decode_status(b""), Err(MpdError::Protocol)));
}

#[test]
fn idle_changes_decode() {
    let c = decode_changes(b"changed: playlist\nchanged: player\nOK\n").unwrap();
    assert_eq!(c.subsystems, vec![b("playlist"), b("player")]);
}

#[test]
fn empty_idle_response_after_cancel() {
    let c = decode_changes(b"OK\n").unwrap();
    assert!(c.subsystems.is_empty());
}

#[test]
fn binary_block_with_ok_inside_is_read_whole() {
    let mut buf = b("binary: 7\n");
    buf.extend_from_slice(b"ab\nOK\nc");
    buf.extend_from_slice(b"\nOK\n");
    match next_frame(&buf, 0) {
        Ok((Frame::Binary(p), next)) => {
            assert_eq!(p, b("ab\nOK\nc"));
            assert_eq!(next, 18);
        }
        other => panic!("unexpected {:?}", other),
    }
    let (frames, end) = read_response(&buf, 0).unwrap();
    assert_eq!(frames.len(), 1);
    assert_eq!(end, buf.len());
}

#[test]
fn binary_block_too_short_is_protocol_error() {
    assert!(matches!(next_frame(b"binary: 9\nabc\nOK\n", 0), Err(MpdError::Protocol)));
}

#[test]
fn binary_size_not_a_number_is_parse_error() {
    assert!(matches!(next_frame(b"binary: x\n", 0), Err(MpdError::Parse { .. })));
}

#[test]
fn list_ok_frames_are_kept() {
    let (frames, end) = read_response(b"list_OK\nlist_OK\nOK\n", 0).unwrap();
    assert_eq!(frames.len(), 2);
    assert!(matches!(frames[0], Frame::ListOk));
    assert_eq!(end, 19);
}

#[test]
fn unknown_key_is_handed_back() {
    let mut s = Status::new();
    let r = s.next_internal(b"mixrampdb", b("-17.5 dB")).unwrap();
    assert_eq!(r, LineHandled::No { value: b("-17.5 dB") });
    assert_eq!(s, Status::new());
    let mut c = CurrentIndex::new(4);
    assert_eq!(c.next_internal(b"pos", b("9")).unwrap(), LineHandled::No { value: b("9") });
    assert_eq!(c.0, 4);
    let mut ch = ChangeSet::new();
    assert_eq!(ch.next_internal(b"x", b("y")).unwrap(), LineHandled::No { value: b("y") });
}

#[test]
fn current_index_takes_id() {
    let mut c = CurrentIndex::new(0);
    assert_eq!(c.next_internal(b"id", b("12")).unwrap(), LineHandled::Yes);
    assert_eq!(c.0, 12);
    assert!(matches!(c.next_internal(b"id", b("x")), Err(MpdError::Parse { .. })));
    assert_eq!(c.0, 12);
    assert!(matches!(c.next_internal(b"id", b("4294967296")), Err(MpdError::Parse { .. })));
    assert_eq!(c.0, 12);
    assert_eq!(c.next_internal(b"id", b("+5")).unwrap(), LineHandled::Yes);
    assert_eq!(c.0, 5);
}

#[test]
fn bad_status_value_leaves_status_unchanged() {
    let mut s = Status::new();
    s.next_internal(b"volume", b("40")).unwrap();
    assert!(s.next_internal(b"repeat", b("yes")).is_err());
    assert!(s.next_internal(b"state", b("paused")).is_err());
    assert_eq!(s.volume.0, 40);
    assert!(!s.repeat);
    assert_eq!(s.state, PlayState::Stop);
}

#[test]
fn decoder_collects_unknown_lines() {
    let (frames, _) = read_response(b"volume: 3\nbitrate: 320\nrepeat: 1\nOK\n", 0).unwrap();
    let (s, left) = decode_frames(Status::new(), &frames).unwrap();
    assert_eq!(left, vec![(b("bitrate"), b("320"))]);
    assert_eq!(s.volume.0, 3);
    assert!(s.repeat);
}

#[test]
fn song_decodes_tags() {
    let s: Song = decode_song(b"file: a/b.flac\nTitle: T\nArtist: A\nTrack: 1\nduration: 215.373\nOK\n").unwrap();
    assert_eq!(s.file, b("a/b.flac"));
    assert_eq!(s.title, Some(b("T")));
    assert_eq!(s.artist, Some(b("A")));
    assert_eq!(s.album, None);
    assert_eq!(s.others, vec![(b("Track"), b("1"))]);
    assert_eq!(s.duration, Some(215));
}

#[test]
fn song_duration_forms() {
    let mut s = Song::new();
    s.next_internal(b"duration", b("42")).unwrap();
    assert_eq!(s.duration, Some(42));
    assert!(matches!(s.next_internal(b"duration", b("4.x")), Err(MpdError::Parse { .. })));
    assert!(matches!(s.next_internal(b"duration", b("4.")), Err(MpdError::Parse { .. })));
    assert_eq!(s.duration, Some(42));
    assert!(decode_song(b"file: a\nduration: x\nOK\n").is_err());
}

#[test]
fn plain_arguments_stay_unquoted() {
    let c = Command::new(b("play"), vec![b("3")]);
    assert_eq!(c.encode(), b("play 3\n"));
    assert_eq!(Command::new(b("status"), vec![]).encode(), b("status\n"));
}

#[test]
fn special_arguments_are_quoted_and_escaped() {
    let c = Command::new(b("add"), vec![b("a b"), b("say \"hi\""), b("c:\\d")]);
    assert_eq!(c.encode(), b("add \"a b\" \"say \\\"hi\\\"\" \"c:\\\\d\"\n"));
    let t = Command::new(b("find"), vec![b("x\ty")]);
    assert_eq!(t.encode(), b("find \"x\ty\"\n"));
}

#[test]
fn batch_is_framed() {
    let cmds = vec![Command::new(b("play"), vec![]), Command::new(b("pause"), vec![b("1")])];
    assert_eq!(
        encode_list(&cmds),
        b("command_list_ok_begin\nplay\npause 1\ncommand_list_end\n")
    );
}

#[test]
fn binary_block_is_not_offered_to_entity() {
    let s = decode_status(b"binary: 6\nOK\nv:\n\nvolume: 5\nOK\n").unwrap();
    assert_eq!(s.volume.0, 5);
    assert!(s.others.is_empty());
    let c = CurrentIndex::new(2);
    let (frames, _) = read_response(b"binary: 3\nid:\nOK\n", 0).unwrap();
    let (c, left) = decode_frames(c, &frames).unwrap();
    assert_eq!(c.0, 2);
    assert!(left.is_empty());
}
