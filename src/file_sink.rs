use vstd::prelude::*;

verus! {

/// Output container selected for the finished file.
#[derive(Clone, Copy, Debug, PartialEq, Eq, Structural)]
pub enum FileType {
    MP3,
    FLAC,
}

/// Errors that the sink reports through its result channel.
#[derive(Clone, Copy, Debug, PartialEq, Eq, Structural)]
pub enum SinkError {
    /// The packet handed to `write` carried no sample payload.
    NoSamples,
}

/// Descriptive tags of one track.
#[derive(Clone, Debug)]
pub struct TrackMetadata {
    pub album: String,
    pub artists: Vec<String>,
    pub track_name: String,
}

/// Mathematical view of `TrackMetadata`.
pub struct MetadataView {
    pub album: Seq<char>,
    pub artists: Seq<Seq<char>>,
    pub track_name: Seq<char>,
}

impl View for TrackMetadata {
    type V = MetadataView;

    open spec fn view(&self) -> MetadataView {
        MetadataView {
            album: self.album@,
            artists: self.artists@.map_values(|a: String| a@),
            track_name: self.track_name@,
        }
    }
}

/// Number of interleaved channels in the output.
pub const OUTPUT_CHANNELS: u32 = 2;

/// Bit depth of the output.
pub const OUTPUT_BITS_PER_SAMPLE: u32 = 16;

/// Compression level handed to the lossless encoder.
pub const FLAC_COMPRESSION_LEVEL: u32 = 4;

/// How the buffer is to be encoded when the sink finishes.
#[derive(Clone, Copy, Debug, PartialEq, Eq, Structural)]
pub enum Encoding {
    /// Lossless: the whole buffer is fed as one interleaved block of `frames`
    /// stereo frames.
    Flac { channels: u32, bits_per_sample: u32, compression_level: u32, frames: u32 },
    /// Lossy, with the encoder's default stream settings; the whole buffer is
    /// fed in one call.
    Mp3,
}

/// Tag scheme used to edit the finished file.
#[derive(Clone, Copy, Debug, PartialEq, Eq, Structural)]
pub enum TagScheme {
    Flac,
    Id3v2,
}

/// One change to the tags of the finished file.
#[derive(Clone, Debug, PartialEq, Eq)]
pub enum TagEdit {
    SetAlbumTitle(String),
    AddArtist(String),
    SetTitle(String),
}

/// Mathematical view of a `TagEdit`.
pub enum TagEditView {
    SetAlbumTitle(Seq<char>),
    AddArtist(Seq<char>),
    SetTitle(Seq<char>),
}

impl View for TagEdit {
    type V = TagEditView;

    open spec fn view(&self) -> TagEditView {
        match self {
            TagEdit::SetAlbumTitle(a) => TagEditView::SetAlbumTitle(a@),
            TagEdit::AddArtist(a) => TagEditView::AddArtist(a@),
            TagEdit::SetTitle(t) => TagEditView::SetTitle(t@),
        }
    }
}

/// The tag edits of a track, in the order they are applied: the album title,
/// each artist in turn, then the track title.
pub open spec fn tag_edits(m: MetadataView) -> Seq<TagEditView> {
    seq![TagEditView::SetAlbumTitle(m.album)]
        + m.artists.map_values(|a: Seq<char>| TagEditView::AddArtist(a))
        + seq![TagEditView::SetTitle(m.track_name)]
}

/// The views of a sequence of tag edits.
pub open spec fn edits_view(e: Seq<TagEdit>) -> Seq<TagEditView> {
    e.map_values(|x: TagEdit| x@)
}

/// Tag work to do on the finished file.
#[derive(Clone, Debug)]
pub struct TagPlan {
    pub scheme: TagScheme,
    pub edits: Vec<TagEdit>,
}

/// Everything that finishing the sink writes: the encoded audio at `path`,
/// then, where metadata was attached, the tags.
#[derive(Clone, Debug)]
pub struct FinishPlan {
    pub path: String,
    pub encoding: Encoding,
    pub tags: Option<TagPlan>,
}

/// The tag scheme that matches an output container.
pub open spec fn scheme_for(t: FileType) -> TagScheme {
    match t {
        FileType::FLAC => TagScheme::Flac,
        FileType::MP3 => TagScheme::Id3v2,
    }
}

/// The encoding chosen for a container and a buffer of `len` samples.
pub open spec fn encoding_for(t: FileType, len: int) -> Encoding {
    match t {
        FileType::FLAC => Encoding::Flac {
            channels: OUTPUT_CHANNELS,
            bits_per_sample: OUTPUT_BITS_PER_SAMPLE,
            compression_level: FLAC_COMPRESSION_LEVEL,
            frames: (len / 2) as u32,
        },
        FileType::MP3 => Encoding::Mp3,
    }
}


/// Mathematical view of a `FileSink`.
pub struct FileSinkView {
    pub path: Seq<char>,
    pub samples: Seq<i32>,
    pub metadata: Option<MetadataView>,
    pub file_type: FileType,
}

/// A sink that accumulates interleaved stereo samples for one track.
pub struct FileSink {
    sink: String,
    content: Vec<i32>,
    metadata: Option<TrackMetadata>,
    file_type: FileType,
}

/// The view of an optional metadata value.
pub open spec fn metadata_view(m: Option<TrackMetadata>) -> Option<MetadataView> {
    match m {
        Some(t) => Some(t@),
        None => None,
    }
}

/// Each 16-bit sample widened to a 32-bit container, in order.
pub open spec fn widened(d: Seq<i16>) -> Seq<i32> {
    d.map_values(|x: i16| x as i32)
}

impl View for FileSink {
    type V = FileSinkView;

    closed spec fn view(&self) -> FileSinkView {
        FileSinkView {
            path: self.sink@,
            samples: self.content@,
            metadata: metadata_view(self.metadata),
            file_type: self.file_type,
        }
    }
}

/// The tag edits for `meta`, in the order they are applied.
pub fn edits_of(meta: &TrackMetadata) -> (r: Vec<TagEdit>)
    ensures
        edits_view(r@) == tag_edits(meta@),
{
    let mut r: Vec<TagEdit> = Vec::new();
    r.push(TagEdit::SetAlbumTitle(meta.album.clone()));
    let mut i: usize = 0;
    while i < meta.artists.len()
        invariant
            i <= meta.artists@.len(),
            edits_view(r@) == seq![TagEditView::SetAlbumTitle(meta.album@)]
                + meta@.artists.subrange(0, i as int).map_values(|a: Seq<char>| TagEditView::AddArtist(a)),
        decreases meta.artists.len() - i,
    {
        let ghost prev = r@;
        r.push(TagEdit::AddArtist(meta.artists[i].clone()));
        proof {
            let head = seq![TagEditView::SetAlbumTitle(meta.album@)];
            let done = meta@.artists.subrange(0, i as int).map_values(
                |a: Seq<char>| TagEditView::AddArtist(a),
            );
            let next = TagEditView::AddArtist(meta@.artists[i as int]);
            assert(edits_view(r@) =~= edits_view(prev).push(next));
            assert(meta@.artists.subrange(0, i + 1).map_values(
                |a: Seq<char>| TagEditView::AddArtist(a),
            ) =~= done.push(next));
            assert(head + done.push(next) =~= (head + done).push(next));
        }
        i = i + 1;
    }
    r.push(TagEdit::SetTitle(meta.track_name.clone()));
    proof {
        assert(meta@.artists.subrange(0, meta@.artists.len() as int) == meta@.artists);
        assert(edits_view(r@) =~= tag_edits(meta@));
    }
    r
}

impl FileSink {
    /// The buffer holds whole stereo frames only.
    pub open spec fn wf(&self) -> bool {
        self@.samples.len() % 2 == 0
    }

    /// Creates a sink bound to `path`, with an empty buffer, no metadata and
    /// FLAC output. A sink cannot exist without a destination path.
    pub fn open(path: Option<String>) -> (r: FileSink)
        requires
            path.is_some(),
        ensures
            r.wf(),
            r@.path == path.unwrap()@,
            r@.samples == Seq::<i32>::empty(),
            r@.metadata.is_none(),
            r@.file_type == FileType::FLAC,
    {
        let file_path = path.unwrap();
        FileSink { sink: file_path, content: Vec::new(), metadata: None, file_type: FileType::FLAC }
    }

    /// Attaches the tags to write on finish; a later call replaces an earlier one.
    pub fn add_metadata(&mut self, meta: TrackMetadata)
        requires
            old(self).wf(),
        ensures
            final(self).wf(),
            final(self)@ == (FileSinkView { metadata: Some(meta@), ..old(self)@ }),
    {
        self.metadata = Some(meta);
    }

    /// Selects the output container.
    pub fn set_file_type(&mut self, file_type: FileType)
        requires
            old(self).wf(),
        ensures
            final(self).wf(),
            final(self)@ == (FileSinkView { file_type: file_type, ..old(self)@ }),
    {
        self.file_type = file_type;
    }

    /// Lifecycle hook of the host; there is nothing to prepare.
    pub fn start(&mut self) -> (r: Result<(), SinkError>)
        requires
            old(self).wf(),
        ensures
            final(self).wf(),
            r is Ok,
            final(self)@ == old(self)@,
    {
        Ok(())
    }

    /// Appends one packet's converted samples, each widened to 32 bits, after
    /// everything received so far. `None` stands for a packet without a sample
    /// payload: it is refused and the buffer stays as it was.
    pub fn write(&mut self, converted: Option<Vec<i16>>) -> (r: Result<(), SinkError>)
        requires
            old(self).wf(),
            converted matches Some(d) ==> d@.len() % 2 == 0,
        ensures
            final(self).wf(),
            match converted {
                None => r == Err::<(), SinkError>(SinkError::NoSamples) && final(self)@ == old(self)@,
                Some(d) => r is Ok && final(self)@ == (FileSinkView {
                    samples: old(self)@.samples + widened(d@),
                    ..old(self)@
                }),
            },
    {
        let data = match converted {
            Some(d) => d,
            None => return Err(SinkError::NoSamples),
        };
        let mut data32: Vec<i32> = Vec::new();
        let mut i: usize = 0;
        while i < data.len()
            invariant
                i <= data.len(),
                data32@ == widened(data@.subrange(0, i as int)),
            decreases data.len() - i,
        {
            data32.push(data[i] as i32);
            proof {
                assert(data@.subrange(0, i + 1) == data@.subrange(0, i as int).push(data@[i as int]));
            }
            i = i + 1;
        }
        proof {
            assert(data@.subrange(0, data@.len() as int) == data@);
        }
        self.content.append(&mut data32);
        Ok(())
    }

    /// The buffered samples, in arrival order.
    pub fn samples(&self) -> (r: &[i32])
        ensures
            r@ == self@.samples,
    {
        self.content.as_slice()
    }

    /// Finishes the sink: says how the whole buffer is encoded to the sink's
    /// path and, where metadata was attached, which tags are then written
    /// with the scheme of the chosen container. Without metadata no tag is
    /// touched.
    pub fn stop(&self) -> (r: FinishPlan)
        requires
            self.wf(),
            self@.samples.len() / 2 <= u32::MAX,
        ensures
            r.path@ == self@.path,
            r.encoding == encoding_for(self@.file_type, self@.samples.len() as int),
            r.tags is None <==> self@.metadata is None,
            self@.metadata matches Some(m) ==> r.tags matches Some(t) && t.scheme == scheme_for(
                self@.file_type,
            ) && edits_view(t.edits@) == tag_edits(m),
    {
        let encoding = match self.file_type {
            FileType::FLAC => Encoding::Flac {
                channels: OUTPUT_CHANNELS,
                bits_per_sample: OUTPUT_BITS_PER_SAMPLE,
                compression_level: FLAC_COMPRESSION_LEVEL,
                frames: (self.content.len() / 2) as u32,
            },
            FileType::MP3 => Encoding::Mp3,
        };
        let tags = match &self.metadata {
            Some(meta) => {
                let scheme = match self.file_type {
                    FileType::FLAC => TagScheme::Flac,
                    FileType::MP3 => TagScheme::Id3v2,
                };
                Some(TagPlan { scheme, edits: edits_of(meta) })
            },
            None => None,
        };
        FinishPlan { path: self.sink.clone(), encoding, tags }
    }
}

} // verus!
