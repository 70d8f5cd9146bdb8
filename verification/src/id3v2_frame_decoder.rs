//! The frame decoder: one linear pass over a byte region that cuts it into
//! frames. The same pass runs over the payload of a tag and, one level
//! further down, over the region that a chapter or table of contents frame
//! embeds.

use crate::errors::ErrorKind;
use crate::id3v2_frame::{
    content_of, decode_content, frame_view, frames_view, is_ascii_alphanumeric_char,
    is_well_formed_id, typed_content_of, ContentView, FrameView, Id3v2Frame, Id3v2FrameContent,
    MAX_EMBEDDED_DEPTH,
};
use crate::id3v2_text_encoding::{decode_iso88591_string, latin1_text};
use crate::id3v2_tools::{
    be_u16_value, be_u32_at, is_frame_id_for_version, is_valid_frame_for_version, read_be_u16,
    read_be_u32, read_synchsafe, synchsafe_at,
};
use vstd::prelude::*;
use vstd::slice::{slice_subrange, slice_to_vec};

verus! {

/// True for the bytes of the ASCII letters and digits.
pub open spec fn is_alphanumeric_byte(byte: u8) -> bool {
    (0x30 <= byte && byte <= 0x39) || (0x41 <= byte && byte <= 0x5A) || (0x61 <= byte && byte
        <= 0x7A)
}

/// True when the four bytes at `pos` can be a frame identifier.
pub open spec fn has_frame_id_at(region: Seq<u8>, pos: int) -> bool {
    is_alphanumeric_byte(region[pos]) && is_alphanumeric_byte(region[pos + 1])
        && is_alphanumeric_byte(region[pos + 2]) && is_alphanumeric_byte(region[pos + 3])
}

/// The frame identifier that the four bytes at `pos` spell.
pub open spec fn frame_id_at(region: Seq<u8>, pos: int) -> Seq<char> {
    latin1_text(region.subrange(pos, pos + 4))
}

/// The payload length that the frame header at `pos` declares: a synchsafe
/// integer under version 4, a plain big-endian integer otherwise.
pub open spec fn frame_size_at(region: Seq<u8>, pos: int, version_major: u8) -> u32 {
    if version_major == 4 {
        synchsafe_at(region, pos + 4)
    } else {
        be_u32_at(region, pos + 4)
    }
}

/// The flag bits of the frame header at `pos`.
pub open spec fn frame_flags_at(region: Seq<u8>, pos: int) -> u16 {
    be_u16_value(region[pos + 8], region[pos + 9])
}

/// The frame whose header stands at `pos`, with its content decoded. Only
/// meaningful where the header is well-formed and the payload fits.
pub open spec fn frame_at(region: Seq<u8>, pos: int, version_major: u8, depth: nat) -> FrameView
    decreases depth, 3nat, 0nat,
{
    let size = frame_size_at(region, pos, version_major);
    let data = region.subrange(pos + 10, pos + 10 + size);
    FrameView {
        id: frame_id_at(region, pos),
        size,
        flags: frame_flags_at(region, pos),
        data,
        content: Some(content_of(frame_id_at(region, pos), data, version_major, depth)),
        embedded_frames: None,
    }
}

/// What decoding a frame has to report about it: an identifier that the
/// version does not define, or else the failure of its typed parser.
pub open spec fn frame_finding(id: Seq<char>, data: Seq<u8>, version_major: u8, depth: nat)
    -> Option<ErrorKind>
    decreases depth, 3nat, 0nat,
{
    if !is_frame_id_for_version(id, version_major) {
        Some(ErrorKind::UnknownFrameId)
    } else {
        match typed_content_of(id, data, version_major, depth) {
            Ok(_) => None,
            Err(kind) => Some(kind),
        }
    }
}

/// The outcome of one step of the frame decoder, as mathematical content.
pub enum StepView {
    /// Fewer than ten bytes remain: the region is exhausted.
    Done,
    /// The identifier begins with a zero byte: padding.
    Padding,
    /// The identifier is not four ASCII letters or digits.
    InvalidId,
    /// The header declares an empty payload; the scan goes on behind it.
    ZeroSize { id: Seq<char>, flags: u16 },
    /// The header declares more payload than the region has left.
    Truncated { id: Seq<char>, declared_size: u32 },
    /// A frame; the scan goes on behind its payload.
    Frame { frame: FrameView, finding: Option<ErrorKind> },
}

impl StepView {
    /// The number of bytes by which this step moves the scan, or nothing
    /// when the step ends the scan.
    pub open spec fn advance(self) -> Option<int> {
        match self {
            StepView::ZeroSize { .. } => Some(10),
            StepView::Frame { frame, .. } => Some(10 + frame.size),
            _ => None,
        }
    }
}

/// One step of the frame decoder at `pos`.
pub open spec fn step_at(region: Seq<u8>, pos: int, version_major: u8, depth: nat) -> StepView
    decreases depth, 3nat, 1nat,
{
    if pos < 0 || pos + 10 > region.len() {
        StepView::Done
    } else if region[pos] == 0 {
        StepView::Padding
    } else if !has_frame_id_at(region, pos) {
        StepView::InvalidId
    } else {
        let size = frame_size_at(region, pos, version_major);
        if size == 0 {
            StepView::ZeroSize {
                id: frame_id_at(region, pos),
                flags: frame_flags_at(region, pos),
            }
        } else if pos + 10 + size > region.len() {
            StepView::Truncated { id: frame_id_at(region, pos), declared_size: size }
        } else {
            StepView::Frame {
                frame: frame_at(region, pos, version_major, depth),
                finding: frame_finding(
                    frame_id_at(region, pos),
                    region.subrange(pos + 10, pos + 10 + size),
                    version_major,
                    depth,
                ),
            }
        }
    }
}

/// How a scan ended.
#[derive(Clone, Copy, Debug, PartialEq, Eq, Structural)]
pub enum ScanEnd {
    /// Fewer than ten bytes were left.
    Done,
    /// Padding was reached.
    Padding,
    /// Bytes that cannot be a frame identifier were reached.
    InvalidId,
    /// A frame declared more payload than was left.
    Truncated,
}

/// The mathematical content of a `Diagnostic`.
pub struct DiagnosticView {
    pub kind: ErrorKind,
    pub offset: int,
    pub frame_id: Seq<char>,
}

/// The mathematical content of a `FrameScan`.
pub struct ScanView {
    pub frames: Seq<FrameView>,
    pub offsets: Seq<int>,
    pub diagnostics: Seq<DiagnosticView>,
    pub end: ScanEnd,
    pub position: int,
}

impl ScanView {
    /// This scan with the frames, their offsets and the diagnostics of an
    /// earlier stretch put in front.
    pub open spec fn after(
        self,
        frames: Seq<FrameView>,
        offsets: Seq<int>,
        diagnostics: Seq<DiagnosticView>,
    ) -> ScanView {
        ScanView {
            frames: frames + self.frames,
            offsets: offsets + self.offsets,
            diagnostics: diagnostics + self.diagnostics,
            end: self.end,
            position: self.position,
        }
    }

    /// The number of diagnostics of the given kind.
    pub open spec fn count_of(self, kind: ErrorKind) -> nat {
        self.diagnostics.filter(|d: DiagnosticView| d.kind == kind).len()
    }
}

/// The diagnostics that one finding gives rise to.
pub open spec fn finding_diagnostics(finding: Option<ErrorKind>, pos: int, id: Seq<char>) -> Seq<
    DiagnosticView,
> {
    match finding {
        Some(kind) => seq![DiagnosticView { kind, offset: pos, frame_id: id }],
        None => Seq::<DiagnosticView>::empty(),
    }
}

/// The scan of `region` from `pos` on: the frames in file order, the offset
/// of the header of each, one diagnostic for each condition met on the way,
/// the reason why the scan ended and the position at which it did.
pub open spec fn scan_from(region: Seq<u8>, pos: int, version_major: u8, depth: nat) -> ScanView
    decreases depth, 4nat, region.len() - pos,
{
    if pos < 0 || pos + 10 > region.len() {
        ScanView {
            frames: Seq::<FrameView>::empty(),
            offsets: Seq::<int>::empty(),
            diagnostics: Seq::<DiagnosticView>::empty(),
            end: ScanEnd::Done,
            position: pos,
        }
    } else if region[pos] == 0 {
        ScanView {
            frames: Seq::<FrameView>::empty(),
            offsets: Seq::<int>::empty(),
            diagnostics: seq![
                DiagnosticView {
                    kind: ErrorKind::PaddingReached,
                    offset: pos,
                    frame_id: Seq::<char>::empty(),
                },
            ],
            end: ScanEnd::Padding,
            position: pos,
        }
    } else if !has_frame_id_at(region, pos) {
        ScanView {
            frames: Seq::<FrameView>::empty(),
            offsets: Seq::<int>::empty(),
            diagnostics: Seq::<DiagnosticView>::empty(),
            end: ScanEnd::InvalidId,
            position: pos,
        }
    } else {
        let id = frame_id_at(region, pos);
        let size = frame_size_at(region, pos, version_major);
        if size == 0 {
            scan_from(region, pos + 10, version_major, depth).after(
                Seq::<FrameView>::empty(),
                Seq::<int>::empty(),
                seq![DiagnosticView { kind: ErrorKind::ZeroSizeFrame, offset: pos, frame_id: id }],
            )
        } else if pos + 10 + size > region.len() {
            ScanView {
                frames: Seq::<FrameView>::empty(),
            offsets: Seq::<int>::empty(),
                diagnostics: seq![
                    DiagnosticView { kind: ErrorKind::TruncatedFrame, offset: pos, frame_id: id },
                ],
                end: ScanEnd::Truncated,
                position: pos,
            }
        } else {
            scan_from(region, pos + 10 + size, version_major, depth).after(
                seq![frame_at(region, pos, version_major, depth)],
                seq![pos],
                finding_diagnostics(
                    frame_finding(
                        id,
                        region.subrange(pos + 10, pos + 10 + size),
                        version_major,
                        depth,
                    ),
                    pos,
                    id,
                ),
            )
        }
    }
}

/// The frames embedded in a chapter or table of contents: the frames that a
/// scan of the embedded region finds, one nesting level further down. At the
/// innermost level that is allowed, the embedded region is left undecoded.
pub open spec fn embedded_frames_of(region: Seq<u8>, version_major: u8, depth: nat) -> Seq<
    FrameView,
>
    decreases depth, 0nat, 0nat,
{
    if depth == 0 {
        Seq::<FrameView>::empty()
    } else {
        scan_from(region, 0, version_major, (depth - 1) as nat).frames
    }
}

/// One condition met while decoding, with the place where it was met.
#[derive(Debug)]
pub struct Diagnostic {
    /// What was met.
    pub kind: ErrorKind,
    /// The offset of the frame header in its region.
    pub offset: usize,
    /// The identifier of the frame; empty for padding.
    pub frame_id: String,
}

impl View for Diagnostic {
    type V = DiagnosticView;

    open spec fn view(&self) -> DiagnosticView {
        DiagnosticView { kind: self.kind, offset: self.offset as int, frame_id: self.frame_id@ }
    }
}

impl Clone for Diagnostic {
    /// The copy has the same view.
    fn clone(&self) -> (copy: Diagnostic)
        ensures
            copy@ == self@,
    {
        Diagnostic { kind: self.kind, offset: self.offset, frame_id: self.frame_id.clone() }
    }
}

/// The views of a list of diagnostics, in order.
pub open spec fn diagnostics_view(diagnostics: Seq<Diagnostic>) -> Seq<DiagnosticView> {
    Seq::new(diagnostics.len(), |i: int| diagnostics[i]@)
}

/// The outcome of one step of the frame decoder.
#[derive(Debug)]
pub enum FrameStep {
    /// Fewer than ten bytes remain: the region is exhausted.
    Done,
    /// The identifier begins with a zero byte: padding.
    Padding,
    /// The identifier is not four ASCII letters or digits.
    InvalidId,
    /// The header declares an empty payload; the scan goes on behind it.
    ZeroSize { id: String, flags: u16 },
    /// The header declares more payload than the region has left.
    Truncated { id: String, declared_size: u32 },
    /// A frame; the scan goes on behind its payload.
    Frame { frame: Id3v2Frame, finding: Option<ErrorKind> },
}

impl View for FrameStep {
    type V = StepView;

    open spec fn view(&self) -> StepView {
        match *self {
            FrameStep::Done => StepView::Done,
            FrameStep::Padding => StepView::Padding,
            FrameStep::InvalidId => StepView::InvalidId,
            FrameStep::ZeroSize { id, flags } => StepView::ZeroSize { id: id@, flags },
            FrameStep::Truncated { id, declared_size } => StepView::Truncated {
                id: id@,
                declared_size,
            },
            FrameStep::Frame { frame, finding } => StepView::Frame {
                frame: frame_view(frame),
                finding,
            },
        }
    }
}

/// The offsets of a list, as mathematical integers.
pub open spec fn offsets_view(offsets: Seq<usize>) -> Seq<int> {
    Seq::new(offsets.len(), |i: int| offsets[i] as int)
}

/// The result of scanning a region for frames.
#[derive(Debug)]
pub struct FrameScan {
    /// The frames, in file order.
    pub frames: Vec<Id3v2Frame>,
    /// For each frame, the offset of its header in the region.
    pub offsets: Vec<usize>,
    /// The conditions met on the way, in file order.
    pub diagnostics: Vec<Diagnostic>,
    /// Why the scan ended.
    pub end: ScanEnd,
    /// The offset at which the scan ended: the number of bytes consumed when
    /// the scan began at the start of the region.
    pub position: usize,
}

impl View for FrameScan {
    type V = ScanView;

    open spec fn view(&self) -> ScanView {
        ScanView {
            frames: frames_view(self.frames@),
            offsets: offsets_view(self.offsets@),
            diagnostics: diagnostics_view(self.diagnostics@),
            end: self.end,
            position: self.position as int,
        }
    }
}

/// Whether `byte` is an ASCII letter or digit.
pub fn is_alphanumeric(byte: u8) -> (yes: bool)
    ensures
        yes == is_alphanumeric_byte(byte),
{
    (0x30 <= byte && byte <= 0x39) || (0x41 <= byte && byte <= 0x5A) || (0x61 <= byte && byte
        <= 0x7A)
}

/// Performs one step of the frame decoder at `pos`: reads the frame header
/// there and, where the payload fits, decodes the frame with `depth` levels
/// of embedded frames below it.
pub fn decode_frame_at(region: &[u8], pos: usize, version_major: u8, depth: u32) -> (step:
    FrameStep)
    ensures
        step@ == step_at(region@, pos as int, version_major, depth as nat),
    decreases depth, 3nat, 1nat,
{
    let len: usize = region.len();
    if len < 10 || pos > len - 10 {
        return FrameStep::Done;
    }
    if region[pos] == 0 {
        return FrameStep::Padding;
    }
    if !(is_alphanumeric(region[pos]) && is_alphanumeric(region[pos + 1]) && is_alphanumeric(
        region[pos + 2],
    ) && is_alphanumeric(region[pos + 3])) {
        return FrameStep::InvalidId;
    }
    let id = decode_iso88591_string(slice_subrange(region, pos, pos + 4));
    let size: u32 = if version_major == 4 {
        read_synchsafe(region, pos + 4)
    } else {
        read_be_u32(region, pos + 4)
    };
    let flags: u16 = read_be_u16(region, pos + 8);
    if size == 0 {
        return FrameStep::ZeroSize { id, flags };
    }
    if size as usize > len - pos - 10 {
        return FrameStep::Truncated { id, declared_size: size };
    }
    let payload = slice_subrange(region, pos + 10, pos + 10 + size as usize);
    let data = slice_to_vec(payload);
    let known: bool = is_valid_frame_for_version(id.as_str(), version_major);
    let (content, failure) = match decode_content(id.as_str(), payload, version_major, depth) {
        Ok(content) => (content, None),
        Err(kind) => (Id3v2FrameContent::Binary(slice_to_vec(payload)), Some(kind)),
    };
    let finding: Option<ErrorKind> = if known {
        failure
    } else {
        Some(ErrorKind::UnknownFrameId)
    };
    let frame = Id3v2Frame {
        id,
        size,
        flags,
        data,
        content: Some(content),
        embedded_frames: None,
    };
    FrameStep::Frame { frame, finding }
}

/// Scans `region` from `start` on with the rules of the given major version,
/// allowing `depth` levels of embedded frames below the frames found.
pub fn scan_frames_with_depth(region: &[u8], start: usize, version_major: u8, depth: u32) -> (scan:
    FrameScan)
    ensures
        scan@ == scan_from(region@, start as int, version_major, depth as nat),
        start <= region@.len() ==> start <= scan.position <= region@.len(),
    decreases depth, 4nat, 0nat,
{
    proof {
        if start <= region@.len() {
            lemma_scan_shape(region@, start as int, version_major, depth as nat);
        }
    }
    let len: usize = region.len();
    let mut frames: Vec<Id3v2Frame> = Vec::new();
    let mut offsets: Vec<usize> = Vec::new();
    let mut diagnostics: Vec<Diagnostic> = Vec::new();
    let mut end: ScanEnd = ScanEnd::Done;
    let mut pos: usize = start;
    let mut scanning: bool = true;
    assert(frames_view(frames@) =~= Seq::<FrameView>::empty());
    assert(offsets_view(offsets@) =~= Seq::<int>::empty());
    assert(diagnostics_view(diagnostics@) =~= Seq::<DiagnosticView>::empty());
    assert(scan_from(region@, start as int, version_major, depth as nat).after(
        Seq::<FrameView>::empty(),
        Seq::<int>::empty(),
        Seq::<DiagnosticView>::empty(),
    ) =~= scan_from(region@, start as int, version_major, depth as nat)) by {
        let whole = scan_from(region@, start as int, version_major, depth as nat);
        assert(Seq::<FrameView>::empty() + whole.frames =~= whole.frames);
        assert(Seq::<int>::empty() + whole.offsets =~= whole.offsets);
        assert(Seq::<DiagnosticView>::empty() + whole.diagnostics =~= whole.diagnostics);
    }
    while scanning
        invariant
            len == region@.len(),
            scanning ==> scan_from(region@, pos as int, version_major, depth as nat).after(
                frames_view(frames@),
                offsets_view(offsets@),
                diagnostics_view(diagnostics@),
            ) == scan_from(region@, start as int, version_major, depth as nat),
            !scanning ==> (ScanView {
                frames: frames_view(frames@),
                offsets: offsets_view(offsets@),
                diagnostics: diagnostics_view(diagnostics@),
                end,
                position: pos as int,
            }) == scan_from(region@, start as int, version_major, depth as nat),
        decreases (if scanning { 1int } else { 0int }), region@.len() - pos,
    {
        let ghost frames_before = frames_view(frames@);
        let ghost offsets_before = offsets_view(offsets@);
        let ghost diagnostics_before = diagnostics_view(diagnostics@);
        let ghost here = scan_from(region@, pos as int, version_major, depth as nat);
        match decode_frame_at(region, pos, version_major, depth) {
            FrameStep::Done => {
                end = ScanEnd::Done;
                scanning = false;
                assert(frames_before + here.frames =~= frames_before);
                assert(offsets_before + here.offsets =~= offsets_before);
                assert(diagnostics_before + here.diagnostics =~= diagnostics_before);
            },
            FrameStep::Padding => {
                diagnostics.push(
                    Diagnostic {
                        kind: ErrorKind::PaddingReached,
                        offset: pos,
                        frame_id: String::new(),
                    },
                );
                end = ScanEnd::Padding;
                scanning = false;
                assert(frames_before + here.frames =~= frames_before);
                assert(offsets_before + here.offsets =~= offsets_before);
                assert(diagnostics_before + here.diagnostics =~= diagnostics_view(diagnostics@));
            },
            FrameStep::InvalidId => {
                end = ScanEnd::InvalidId;
                scanning = false;
                assert(frames_before + here.frames =~= frames_before);
                assert(offsets_before + here.offsets =~= offsets_before);
                assert(diagnostics_before + here.diagnostics =~= diagnostics_before);
            },
            FrameStep::ZeroSize { id, flags } => {
                diagnostics.push(
                    Diagnostic { kind: ErrorKind::ZeroSizeFrame, offset: pos, frame_id: id },
                );
                proof {
                    let next = scan_from(region@, pos + 10, version_major, depth as nat);
                    let added = seq![
                        DiagnosticView {
                            kind: ErrorKind::ZeroSizeFrame,
                            offset: pos as int,
                            frame_id: id@,
                        },
                    ];
                    assert(diagnostics_view(diagnostics@) =~= diagnostics_before + added);
                    assert(frames_before + (Seq::<FrameView>::empty() + next.frames)
                        =~= frames_before + next.frames);
                    assert(offsets_before + (Seq::<int>::empty() + next.offsets)
                        =~= offsets_before + next.offsets);
                    assert(diagnostics_before + (added + next.diagnostics) =~= (diagnostics_before
                        + added) + next.diagnostics);
                }
                pos = pos + 10;
            },
            FrameStep::Truncated { id, declared_size } => {
                diagnostics.push(
                    Diagnostic { kind: ErrorKind::TruncatedFrame, offset: pos, frame_id: id },
                );
                end = ScanEnd::Truncated;
                scanning = false;
                assert(frames_before + here.frames =~= frames_before);
                assert(offsets_before + here.offsets =~= offsets_before);
                assert(diagnostics_before + here.diagnostics =~= diagnostics_view(diagnostics@));
            },
            FrameStep::Frame { frame, finding } => {
                let size: usize = frame.size as usize;
                let ghost view = frame_view(frame);
                let ghost added = finding_diagnostics(finding, pos as int, frame.id@);
                match finding {
                    Some(kind) => {
                        let frame_id = frame.id.clone();
                        diagnostics.push(Diagnostic { kind, offset: pos, frame_id });
                    },
                    None => {},
                }
                assert(diagnostics_view(diagnostics@) =~= diagnostics_before + added);
                frames.push(frame);
                offsets.push(pos);
                proof {
                    let next = scan_from(region@, pos + 10 + size, version_major, depth as nat);
                    assert(frames_view(frames@) =~= frames_before + seq![view]);
                    assert(offsets_view(offsets@) =~= offsets_before + seq![pos as int]);
                    assert(frames_before + (seq![view] + next.frames) =~= (frames_before
                        + seq![view]) + next.frames);
                    assert(offsets_before + (seq![pos as int] + next.offsets) =~= (offsets_before
                        + seq![pos as int]) + next.offsets);
                    assert(diagnostics_before + (added + next.diagnostics) =~= (diagnostics_before
                        + added) + next.diagnostics);
                }
                pos = pos + 10 + size;
            },
        }
    }
    FrameScan { frames, offsets, diagnostics, end, position: pos }
}

/// Decodes the frames embedded in a chapter or table of contents, allowing
/// `depth` levels of frames: none at all when `depth` is zero.
pub fn decode_embedded_frames(region: &[u8], version_major: u8, depth: u32) -> (frames: Vec<
    Id3v2Frame,
>)
    ensures
        frames_view(frames@) == embedded_frames_of(region@, version_major, depth as nat),
    decreases depth, 0nat, 0nat,
{
    if depth == 0 {
        let frames: Vec<Id3v2Frame> = Vec::new();
        assert(frames_view(frames@) =~= Seq::<FrameView>::empty());
        frames
    } else {
        scan_frames_with_depth(region, 0, version_major, depth - 1).frames
    }
}

/// Scans `region` from `start` on with the rules of the given major version.
pub fn scan_frames(region: &[u8], start: usize, version_major: u8) -> (scan: FrameScan)
    ensures
        scan@ == scan_from(region@, start as int, version_major, MAX_EMBEDDED_DEPTH as nat),
        start <= region@.len() ==> start <= scan.position <= region@.len(),
{
    scan_frames_with_depth(region, start, version_major, MAX_EMBEDDED_DEPTH)
}

/// A frame header that declares an empty payload does not end the scan: the
/// step moves on by the ten bytes of the header, and the scan from there is
/// the rest of the scan, behind one zero-size diagnostic.
pub proof fn lemma_zero_size_frame_is_skipped(
    region: Seq<u8>,
    pos: int,
    version_major: u8,
    depth: nat,
)
    requires
        0 <= pos,
        pos + 10 <= region.len(),
        has_frame_id_at(region, pos),
        frame_size_at(region, pos, version_major) == 0,
    ensures
        step_at(region, pos, version_major, depth).advance() == Some(10int),
        scan_from(region, pos, version_major, depth) == scan_from(
            region,
            pos + 10,
            version_major,
            depth,
        ).after(
            Seq::<FrameView>::empty(),
            Seq::<int>::empty(),
            seq![
                DiagnosticView {
                    kind: ErrorKind::ZeroSizeFrame,
                    offset: pos,
                    frame_id: frame_id_at(region, pos),
                },
            ],
        ),
{
}

/// A frame header that declares more payload than the region has left ends
/// the scan at that header: no frame is produced, and the one diagnostic
/// reports the truncation.
pub proof fn lemma_oversized_frame_stops_scan(
    region: Seq<u8>,
    pos: int,
    version_major: u8,
    depth: nat,
)
    requires
        0 <= pos,
        pos + 10 <= region.len(),
        has_frame_id_at(region, pos),
        pos + 10 + frame_size_at(region, pos, version_major) > region.len(),
    ensures
        step_at(region, pos, version_major, depth) == (StepView::Truncated {
            id: frame_id_at(region, pos),
            declared_size: frame_size_at(region, pos, version_major),
        }),
        step_at(region, pos, version_major, depth).advance() is None,
        scan_from(region, pos, version_major, depth) == (ScanView {
            frames: Seq::<FrameView>::empty(),
            offsets: Seq::<int>::empty(),
            diagnostics: seq![
                DiagnosticView {
                    kind: ErrorKind::TruncatedFrame,
                    offset: pos,
                    frame_id: frame_id_at(region, pos),
                },
            ],
            end: ScanEnd::Truncated,
            position: pos,
        }),
{
}

/// The identifier that four alphanumeric bytes spell is well-formed.
pub proof fn lemma_frame_id_well_formed(region: Seq<u8>, pos: int)
    requires
        0 <= pos,
        pos + 4 <= region.len(),
        has_frame_id_at(region, pos),
    ensures
        is_well_formed_id(frame_id_at(region, pos)),
{
    let id = frame_id_at(region, pos);
    assert forall|i: int| 0 <= i < id.len() implies is_ascii_alphanumeric_char(
        #[trigger] id[i],
    ) by {
        assert(id[i] == region[pos + i] as char);
    }
}

/// True for a frame as the decoder produces it: a well-formed identifier, a
/// payload of the declared length, content, and no separate list of embedded
/// frames.
pub open spec fn is_decoded_frame(frame: FrameView) -> bool {
    is_well_formed_id(frame.id) && frame.size > 0 && frame.data.len() == frame.size
        && frame.content is Some && frame.embedded_frames is None
}

/// What holds of every scan: it ends inside the region at or behind its
/// start; every frame is a decoded frame; each frame has one offset, its
/// header and payload lie between the start and the end of the scan, and its
/// payload is the bytes of the region behind its header; the frames together
/// take up no more than the stretch that was scanned.
pub proof fn lemma_scan_shape(region: Seq<u8>, pos: int, version_major: u8, depth: nat)
    requires
        0 <= pos <= region.len(),
    ensures
        pos <= scan_from(region, pos, version_major, depth).position <= region.len(),
        scan_from(region, pos, version_major, depth).offsets.len() == scan_from(
            region,
            pos,
            version_major,
            depth,
        ).frames.len(),
        forall|i: int|
            0 <= i < scan_from(region, pos, version_major, depth).frames.len()
                ==> frame_stands_at(
                region,
                #[trigger] scan_from(region, pos, version_major, depth).frames[i],
                scan_from(region, pos, version_major, depth).offsets[i],
                pos,
                scan_from(region, pos, version_major, depth).position,
            ),
        stored_length(scan_from(region, pos, version_major, depth).frames) <= scan_from(
            region,
            pos,
            version_major,
            depth,
        ).position - pos,
    decreases region.len() - pos,
{
    let scan = scan_from(region, pos, version_major, depth);
    if pos + 10 > region.len() {
    } else if region[pos] == 0 {
    } else if !has_frame_id_at(region, pos) {
    } else {
        let size = frame_size_at(region, pos, version_major);
        if size == 0 {
            lemma_scan_shape(region, pos + 10, version_major, depth);
            let rest = scan_from(region, pos + 10, version_major, depth);
            assert(scan.frames =~= rest.frames);
            assert(scan.offsets =~= rest.offsets);
        } else if pos + 10 + size > region.len() {
        } else {
            lemma_scan_shape(region, pos + 10 + size, version_major, depth);
            lemma_frame_id_well_formed(region, pos);
            let rest = scan_from(region, pos + 10 + size, version_major, depth);
            let frame = frame_at(region, pos, version_major, depth);
            assert(scan.frames =~= seq![frame] + rest.frames);
            assert(scan.offsets =~= seq![pos] + rest.offsets);
            assert(is_decoded_frame(frame));
            assert forall|i: int| 0 <= i < scan.frames.len() implies frame_stands_at(
                region,
                #[trigger] scan.frames[i],
                scan.offsets[i],
                pos,
                scan.position,
            ) by {
                if i > 0 {
                    assert(scan.frames[i] == rest.frames[i - 1]);
                    assert(scan.offsets[i] == rest.offsets[i - 1]);
                }
            }
            assert(scan.frames.drop_first() =~= rest.frames);
        }
    }
}

/// The frames of a scan stand in file order and do not overlap: each frame
/// ends, header and payload, before the next one begins.
pub proof fn lemma_scan_order(region: Seq<u8>, pos: int, version_major: u8, depth: nat)
    requires
        0 <= pos <= region.len(),
    ensures
        forall|i: int, j: int|
            0 <= i < j < scan_from(region, pos, version_major, depth).frames.len() ==> (
            #[trigger] scan_from(region, pos, version_major, depth).offsets[i]) + 10 + scan_from(
                region,
                pos,
                version_major,
                depth,
            ).frames[i].size <= #[trigger] scan_from(region, pos, version_major, depth).offsets[j],
    decreases region.len() - pos,
{
    let scan = scan_from(region, pos, version_major, depth);
    if pos + 10 > region.len() {
    } else if region[pos] == 0 {
    } else if !has_frame_id_at(region, pos) {
    } else {
        let size = frame_size_at(region, pos, version_major);
        if size == 0 {
            lemma_scan_order(region, pos + 10, version_major, depth);
            let rest = scan_from(region, pos + 10, version_major, depth);
            assert(scan.frames =~= rest.frames);
            assert(scan.offsets =~= rest.offsets);
        } else if pos + 10 + size > region.len() {
        } else {
            let next = pos + 10 + size;
            lemma_scan_order(region, next, version_major, depth);
            lemma_scan_shape(region, next, version_major, depth);
            let rest = scan_from(region, next, version_major, depth);
            let frame = frame_at(region, pos, version_major, depth);
            assert(scan.frames =~= seq![frame] + rest.frames);
            assert(scan.offsets =~= seq![pos] + rest.offsets);
            assert forall|i: int, j: int| 0 <= i < j < scan.frames.len() implies (
            #[trigger] scan.offsets[i]) + 10 + scan.frames[i].size <= #[trigger] scan.offsets[j] by {
                assert(scan.offsets[j] == rest.offsets[j - 1]);
                assert(frame_stands_at(
                    region,
                    rest.frames[j - 1],
                    rest.offsets[j - 1],
                    next,
                    rest.position,
                ));
                if i > 0 {
                    assert(scan.offsets[i] == rest.offsets[i - 1]);
                    assert(scan.frames[i] == rest.frames[i - 1]);
                }
            }
        }
    }
}

/// True when `frame` is a decoded frame whose header stands at `offset` and
/// which lies, header and payload, between `from` and `to` in the region.
pub open spec fn frame_stands_at(
    region: Seq<u8>,
    frame: FrameView,
    offset: int,
    from: int,
    to: int,
) -> bool {
    is_decoded_frame(frame) && from <= offset && offset + 10 + frame.size <= to && to
        <= region.len() && frame.data == region.subrange(offset + 10, offset + 10 + frame.size)
        && frame.id == frame_id_at(region, offset)
}

/// The number of bytes that a list of frames takes up in its region: ten
/// bytes of header and the payload for each frame.
pub open spec fn stored_length(frames: Seq<FrameView>) -> int
    decreases frames.len(),
{
    if frames.len() == 0 {
        0
    } else {
        10 + frames[0].size + stored_length(frames.drop_first())
    }
}

/// The frame that a single decoder step at `pos` emits: the frame of the
/// step where the step produces one, whether or not the version defines its
/// identifier. A frame with an identifier outside the version's list is
/// emitted with binary content. An exhausted region, padding, a malformed
/// identifier and an empty or oversized payload give nothing.
pub open spec fn emitted_frame_at(region: Seq<u8>, pos: int, version_major: u8, depth: nat)
    -> Option<FrameView> {
    match step_at(region, pos, version_major, depth) {
        StepView::Frame { frame, .. } => Some(frame),
        _ => None,
    }
}

/// A frame is emitted exactly where a well-formed header with a non-empty
/// payload that fits stands at `pos`, and the emitted frame is the frame at
/// that position. Where the version does not define its identifier, the
/// content is the payload as binary content.
pub proof fn lemma_emitted_frame(region: Seq<u8>, pos: int, version_major: u8, depth: nat)
    ensures
        emitted_frame_at(region, pos, version_major, depth) is Some <==> (0 <= pos && pos + 10
            <= region.len() && has_frame_id_at(region, pos) && frame_size_at(
            region,
            pos,
            version_major,
        ) != 0 && pos + 10 + frame_size_at(region, pos, version_major) <= region.len()),
        emitted_frame_at(region, pos, version_major, depth) matches Some(frame) ==> frame
            == frame_at(region, pos, version_major, depth) && (!is_frame_id_for_version(
            frame.id,
            version_major,
        ) ==> frame.content == Some(ContentView::Binary(frame.data))),
{
}

/// Decodes the frame at `pos` with the rules of the given major version.
/// Returns the frame wherever a decoder step at `pos` emits one.
pub fn parse_frame_at(region: &[u8], pos: usize, version_major: u8) -> (frame: Option<
    Id3v2Frame,
>)
    ensures
        match frame {
            Some(f) => emitted_frame_at(
                region@,
                pos as int,
                version_major,
                MAX_EMBEDDED_DEPTH as nat,
            ) == Some(f@),
            None => emitted_frame_at(
                region@,
                pos as int,
                version_major,
                MAX_EMBEDDED_DEPTH as nat,
            ) is None,
        },
{
    match decode_frame_at(region, pos, version_major, MAX_EMBEDDED_DEPTH) {
        FrameStep::Frame { frame, finding } => Some(frame),
        _ => None,
    }
}

/// The number of diagnostics of the given kind.
pub open spec fn count_kind(diagnostics: Seq<DiagnosticView>, kind: ErrorKind) -> nat
    decreases diagnostics.len(),
{
    if diagnostics.len() == 0 {
        0
    } else {
        count_kind(diagnostics.drop_last(), kind) + (if diagnostics.last().kind == kind {
            1nat
        } else {
            0nat
        })
    }
}

/// The number of diagnostics that report a failure to decode: everything but
/// the benign kinds and unknown identifiers, which are counted on their own.
pub open spec fn count_failures(diagnostics: Seq<DiagnosticView>) -> nat
    decreases diagnostics.len(),
{
    if diagnostics.len() == 0 {
        0
    } else {
        count_failures(diagnostics.drop_last()) + (if diagnostics.last().kind.decode_failure() {
            1nat
        } else {
            0nat
        })
    }
}

/// The payload total of a longer stretch of frames is no smaller.
pub proof fn lemma_payload_total_grows(frames: Seq<FrameView>, upto: int, id: Seq<char>)
    requires
        0 <= upto <= frames.len(),
    ensures
        payload_total(frames.take(upto), id) <= payload_total(frames, id),
    decreases frames.len() - upto,
{
    if upto < frames.len() {
        lemma_payload_total_grows(frames, upto + 1, id);
        assert(frames.take(upto + 1).drop_last() =~= frames.take(upto));
    } else {
        assert(frames.take(upto) =~= frames);
    }
}

/// The number of frames with the given identifier.
pub open spec fn count_id(frames: Seq<FrameView>, id: Seq<char>) -> nat
    decreases frames.len(),
{
    if frames.len() == 0 {
        0
    } else {
        count_id(frames.drop_last(), id) + (if frames.last().id == id {
            1nat
        } else {
            0nat
        })
    }
}

/// The declared payload sizes of the frames with the given identifier, added
/// up.
pub open spec fn payload_total(frames: Seq<FrameView>, id: Seq<char>) -> nat
    decreases frames.len(),
{
    if frames.len() == 0 {
        0
    } else {
        payload_total(frames.drop_last(), id) + (if frames.last().id == id {
            frames.last().size as nat
        } else {
            0nat
        })
    }
}

/// The number of frames whose declared payload size is above `limit`.
pub open spec fn count_larger(frames: Seq<FrameView>, limit: u32) -> nat
    decreases frames.len(),
{
    if frames.len() == 0 {
        0
    } else {
        count_larger(frames.drop_last(), limit) + (if frames.last().size > limit {
            1nat
        } else {
            0nat
        })
    }
}

impl FrameScan {
    /// Returns the number of frames with the given identifier.
    pub fn count_frames_with_id(&self, id: &str) -> (count: usize)
        ensures
            count == count_id(self@.frames, id@),
    {
        let total: usize = self.frames.len();
        let ghost all = frames_view(self.frames@);
        let mut count: usize = 0;
        let mut i: usize = 0;
        assert(all.take(0) =~= Seq::<FrameView>::empty());
        while i < total
            invariant
                total == self.frames@.len(),
                all == frames_view(self.frames@),
                i <= total,
                count <= i,
                count == count_id(all.take(i as int), id@),
            decreases total - i,
        {
            assert(all.take(i + 1).drop_last() =~= all.take(i as int));
            assert(all.take(i + 1).last() == frame_view(self.frames@[i as int]));
            if self.frames[i].id.as_str().eq(id) {
                count += 1;
            }
            i += 1;
        }
        assert(all.take(total as int) =~= all);
        count
    }

    /// Returns the declared payload sizes of the frames with the given
    /// identifier, added up, or `None` when the sum does not fit.
    pub fn payload_bytes_with_id(&self, id: &str) -> (bytes: Option<u64>)
        ensures
            match bytes {
                Some(sum) => sum == payload_total(self@.frames, id@),
                None => payload_total(self@.frames, id@) > u64::MAX,
            },
    {
        let total: usize = self.frames.len();
        let ghost all = frames_view(self.frames@);
        let mut sum: u64 = 0;
        let mut i: usize = 0;
        assert(all.take(0) =~= Seq::<FrameView>::empty());
        while i < total
            invariant
                total == self.frames@.len(),
                all == frames_view(self.frames@),
                i <= total,
                sum == payload_total(all.take(i as int), id@),
            decreases total - i,
        {
            assert(all.take(i + 1).drop_last() =~= all.take(i as int));
            assert(all.take(i + 1).last() == frame_view(self.frames@[i as int]));
            if self.frames[i].id.as_str().eq(id) {
                let size: u64 = self.frames[i].size as u64;
                if sum > u64::MAX - size {
                    proof {
                        lemma_payload_total_grows(all, i + 1, id@);
                    }
                    return None;
                }
                sum = sum + size;
            }
            i += 1;
        }
        assert(all.take(total as int) =~= all);
        Some(sum)
    }

    /// Returns the number of frames whose declared payload size is above
    /// `limit`.
    pub fn count_frames_larger_than(&self, limit: u32) -> (count: usize)
        ensures
            count == count_larger(self@.frames, limit),
    {
        let total: usize = self.frames.len();
        let ghost all = frames_view(self.frames@);
        let mut count: usize = 0;
        let mut i: usize = 0;
        assert(all.take(0) =~= Seq::<FrameView>::empty());
        while i < total
            invariant
                total == self.frames@.len(),
                all == frames_view(self.frames@),
                i <= total,
                count <= i,
                count == count_larger(all.take(i as int), limit),
            decreases total - i,
        {
            assert(all.take(i + 1).drop_last() =~= all.take(i as int));
            assert(all.take(i + 1).last() == frame_view(self.frames@[i as int]));
            if self.frames[i].size > limit {
                count += 1;
            }
            i += 1;
        }
        assert(all.take(total as int) =~= all);
        count
    }

    /// Returns the number of frames that were decoded.
    pub fn frames_parsed(&self) -> (count: usize)
        ensures
            count == self@.frames.len(),
    {
        self.frames.len()
    }

    /// Returns the number of diagnostics of the given kind.
    pub fn count_diagnostics(&self, kind: ErrorKind) -> (count: usize)
        ensures
            count == count_kind(self@.diagnostics, kind),
    {
        let total: usize = self.diagnostics.len();
        let ghost all = diagnostics_view(self.diagnostics@);
        let mut count: usize = 0;
        let mut i: usize = 0;
        assert(all.take(0) =~= Seq::<DiagnosticView>::empty());
        while i < total
            invariant
                total == self.diagnostics@.len(),
                all == diagnostics_view(self.diagnostics@),
                i <= total,
                count <= i,
                count == count_kind(all.take(i as int), kind),
            decreases total - i,
        {
            assert(all.take(i + 1).drop_last() =~= all.take(i as int));
            assert(all.take(i + 1).last() == self.diagnostics@[i as int]@);
            if self.diagnostics[i].kind == kind {
                count += 1;
            }
            i += 1;
        }
        assert(all.take(total as int) =~= all);
        count
    }

    /// Returns the number of frames whose identifier the version does not
    /// define.
    pub fn invalid_frame_ids(&self) -> (count: usize)
        ensures
            count == count_kind(self@.diagnostics, ErrorKind::UnknownFrameId),
    {
        self.count_diagnostics(ErrorKind::UnknownFrameId)
    }

    /// Returns the number of decoding failures: frames whose typed parser
    /// failed, and a truncated frame at the end of the scan.
    pub fn parsing_errors(&self) -> (count: usize)
        ensures
            count == count_failures(self@.diagnostics),
    {
        let total: usize = self.diagnostics.len();
        let ghost all = diagnostics_view(self.diagnostics@);
        let mut count: usize = 0;
        let mut i: usize = 0;
        assert(all.take(0) =~= Seq::<DiagnosticView>::empty());
        while i < total
            invariant
                total == self.diagnostics@.len(),
                all == diagnostics_view(self.diagnostics@),
                i <= total,
                count <= i,
                count == count_failures(all.take(i as int)),
            decreases total - i,
        {
            assert(all.take(i + 1).drop_last() =~= all.take(i as int));
            assert(all.take(i + 1).last() == self.diagnostics@[i as int]@);
            if self.diagnostics[i].kind.is_decode_failure() {
                count += 1;
            }
            i += 1;
        }
        assert(all.take(total as int) =~= all);
        count
    }
}

} // verus!
