use rmpc::client::decode_songs;
use rmpc::response::MpdError;
use rmpc::text::StringExt;

#[test]
fn file_lines_split_songs() {
    let songs = decode_songs(b"file: a.flac\nTitle: A\nGenre: G\nfile: b.flac\nArtist: X\nAlbum: Y\nOK\n").unwrap();
    assert_eq!(songs.len(), 2);
    assert_eq!(songs[0].file, b"a.flac".to_vec());
    assert_eq!(songs[0].title, Some(b"A".to_vec()));
    assert_eq!(songs[0].artist, None);
    assert_eq!(songs[1].file, b"b.flac".to_vec());
    assert_eq!(songs[1].artist, Some(b"X".to_vec()));
    assert_eq!(songs[1].album, Some(b"Y".to_vec()));
    assert_eq!(songs[0].others, vec![(b"Genre".to_vec(), b"G".to_vec())]);
    assert!(songs[1].others.is_empty());
}

#[test]
fn lines_before_first_file_belong_to_no_song() {
    let songs = decode_songs(b"Title: stray\nfile: a\nOK\n").unwrap();
    assert_eq!(songs.len(), 1);
    assert_eq!(songs[0].title, None);
    assert!(decode_songs(b"OK\n").unwrap().is_empty());
}

#[test]
fn listing_error_is_surfaced() {
    assert!(matches!(decode_songs(b"file: a\nACK [2@0] {playlistinfo} bad\n"), Err(MpdError::Server(_))));
}

#[test]
fn file_name_drops_directory_and_extension() {
    assert_eq!("music/dir/song.flac".to_string().file_name(), "song");
    assert_eq!("noext".to_string().file_name(), "noext");
    assert_eq!("a/b.c.d".to_string().file_name(), "b.c");
    assert_eq!("dir/".to_string().file_name(), "");
}

#[test]
fn ellipsize_shortens_long_text() {
    assert_eq!("abcdefgh".to_string().ellipsize(5), "ab...");
    assert_eq!("abc".to_string().ellipsize(5), "abc");
    assert_eq!("abcde".to_string().ellipsize(5), "abcde");
    assert_eq!("äöüßxyz".to_string().ellipsize(6), "äöü...");
}
