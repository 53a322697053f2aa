use audio_file_sink::{
    edits_of, Encoding, FileSink, FileType, SinkError, TagEdit, TagScheme, TrackMetadata,
};

fn sink() -> FileSink {
    FileSink::open(Some("out.flac".to_string()))
}

fn meta(album: &str, artists: &[&str], title: &str) -> TrackMetadata {
    TrackMetadata {
        album: album.to_string(),
        artists: artists.iter().map(|a| a.to_string()).collect(),
        track_name: title.to_string(),
    }
}

#[test]
fn open_starts_empty_as_flac_without_tags() {
    let s = sink();
    assert!(s.samples().is_empty());
    let plan = s.stop();
    assert_eq!(plan.path, "out.flac");
    assert_eq!(
        plan.encoding,
        Encoding::Flac { channels: 2, bits_per_sample: 16, compression_level: 4, frames: 0 }
    );
    assert!(plan.tags.is_none());
}

#[test]
fn start_always_succeeds() {
    let mut s = sink();
    assert_eq!(s.start(), Ok(()));
    assert!(s.samples().is_empty());
}

#[test]
fn write_widens_samples() {
    let mut s = sink();
    assert_eq!(s.write(Some(vec![1, -2, i16::MAX, i16::MIN])), Ok(()));
    assert_eq!(s.samples(), &[1, -2, 32767, -32768]);
}

#[test]
fn writes_keep_arrival_order() {
    let mut s = sink();
    assert_eq!(s.write(Some(vec![5, 6])), Ok(()));
    assert_eq!(s.write(Some(vec![1, 2, 3, 4])), Ok(()));
    assert_eq!(s.write(Some(vec![-7, 8])), Ok(()));
    assert_eq!(s.samples(), &[5, 6, 1, 2, 3, 4, -7, 8]);
}

#[test]
fn buffer_length_is_sum_of_packets_and_even() {
    let mut s = sink();
    let packets: Vec<Vec<i16>> = vec![vec![0; 4], vec![], vec![9; 10], vec![1, 1]];
    let mut total = 0;
    for p in packets {
        total += p.len();
        assert_eq!(s.write(Some(p)), Ok(()));
        assert_eq!(s.samples().len(), total);
        assert_eq!(s.samples().len() % 2, 0);
    }
    assert_eq!(total, 16);
}

#[test]
fn write_without_payload_is_refused_and_keeps_buffer() {
    let mut s = sink();
    assert_eq!(s.write(Some(vec![3, 4])), Ok(()));
    assert_eq!(s.write(None), Err(SinkError::NoSamples));
    assert_eq!(s.samples(), &[3, 4]);
}

#[test]
fn flac_frames_are_half_the_buffer() {
    let mut s = sink();
    s.set_file_type(FileType::FLAC);
    assert_eq!(s.write(Some(vec![1, 2, 3, 4, 5, 6])), Ok(()));
    let plan = s.stop();
    assert_eq!(
        plan.encoding,
        Encoding::Flac { channels: 2, bits_per_sample: 16, compression_level: 4, frames: 3 }
    );
}

#[test]
fn mp3_uses_default_encoder_and_id3_tags() {
    let mut s = FileSink::open(Some("song.mp3".to_string()));
    s.set_file_type(FileType::MP3);
    s.add_metadata(meta("A", &["X"], "T"));
    assert_eq!(s.write(Some(vec![1, 2])), Ok(()));
    let plan = s.stop();
    assert_eq!(plan.path, "song.mp3");
    assert_eq!(plan.encoding, Encoding::Mp3);
    let tags = plan.tags.unwrap();
    assert_eq!(tags.scheme, TagScheme::Id3v2);
}

#[test]
fn metadata_edits_album_artists_then_title() {
    let mut s = sink();
    s.add_metadata(meta("A", &["X", "Y"], "T"));
    let plan = s.stop();
    let tags = plan.tags.unwrap();
    assert_eq!(tags.scheme, TagScheme::Flac);
    assert_eq!(
        tags.edits,
        vec![
            TagEdit::SetAlbumTitle("A".to_string()),
            TagEdit::AddArtist("X".to_string()),
            TagEdit::AddArtist("Y".to_string()),
            TagEdit::SetTitle("T".to_string()),
        ]
    );
}

#[test]
fn later_metadata_replaces_earlier() {
    let mut s = sink();
    s.add_metadata(meta("Old", &["P"], "Q"));
    s.add_metadata(meta("New", &[], "Song"));
    let tags = s.stop().tags.unwrap();
    assert_eq!(
        tags.edits,
        vec![TagEdit::SetAlbumTitle("New".to_string()), TagEdit::SetTitle("Song".to_string())]
    );
}

#[test]
fn edits_without_artists() {
    let e = edits_of(&meta("", &[], ""));
    assert_eq!(
        e,
        vec![TagEdit::SetAlbumTitle(String::new()), TagEdit::SetTitle(String::new())]
    );
}

#[test]
fn setters_keep_buffer() {
    let mut s = sink();
    assert_eq!(s.write(Some(vec![10, 20])), Ok(()));
    s.set_file_type(FileType::MP3);
    s.add_metadata(meta("A", &[], "T"));
    assert_eq!(s.samples(), &[10, 20]);
}
