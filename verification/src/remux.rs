//! The remux engine: merges one audio elementary stream and at most one
//! still image into a new container, copying codec data verbatim,
//! attaching the image as cover art and writing the tag set.
//!
//! The engine works on an explicit model of a media container: the
//! ordered streams it declares, and the ordered packets it carries. The
//! unverified edge that demultiplexes a staged file into this model, and
//! multiplexes the result back into a file, lives outside the library.

use vstd::prelude::*;
use vstd::string::StringExecFns;

use crate::error::Error;

verus! {

/// The medium a container stream carries.
#[derive(Clone, Copy, Debug, PartialEq, Eq, Structural)]
pub enum MediaType {
    Audio,
    Video,
    Data,
}

/// One elementary stream of a container.
pub struct StreamInfo {
    /// The medium of the stream.
    pub media_type: MediaType,
    /// The codec parameter block, copied verbatim on remux.
    pub codec_parameters: Vec<u8>,
    /// The container-assigned codec tag; reset to zero on remux so the
    /// target container can assign its own.
    pub codec_tag: u32,
    /// Numerator of the stream's time base.
    pub time_base_num: u32,
    /// Denominator of the stream's time base.
    pub time_base_den: u32,
    /// Whether the stream is marked as an attached picture (cover art).
    pub attached_picture: bool,
}

/// One packet of compressed payload data.
pub struct Packet {
    /// Index of the stream the packet belongs to.
    pub stream_index: usize,
    /// Presentation timestamp, in units of the stream's time base.
    pub pts: i64,
    /// Decoding timestamp, in units of the stream's time base.
    pub dts: i64,
    /// Byte position hint within the source container; `-1` if unknown.
    pub position: i64,
    /// The compressed payload, copied verbatim on remux.
    pub data: Vec<u8>,
}

/// A demultiplexed source container.
pub struct InputContainer {
    /// The streams the container declares, in container order.
    pub streams: Vec<StreamInfo>,
    /// The packets the container carries, in container order.
    pub packets: Vec<Packet>,
}

/// The tag set written to the output container. `title` and `artist` are
/// mandatory; a field left unset is omitted from the output tag
/// dictionary, never written as an empty string.
#[derive(Default)]
pub struct Metadata {
    pub album: Option<String>,
    pub album_artist: Option<String>,
    pub artist: String,
    pub composer: Option<String>,
    pub copyright: Option<String>,
    pub creation_time: Option<String>,
    pub date: Option<String>,
    pub disc: Option<String>,
    pub genre: Option<String>,
    pub language: Option<String>,
    pub performer: Option<String>,
    pub publisher: Option<String>,
    pub title: String,
    pub track: Option<String>,
}

/// The remultiplexed output container.
pub struct OutputContainer {
    /// The output streams, in the order they were added.
    pub streams: Vec<StreamInfo>,
    /// The tag dictionary committed to the container header, in insertion
    /// order.
    pub metadata: Vec<(String, String)>,
    /// The remapped packets, audio first, then cover.
    pub packets: Vec<Packet>,
}

/// A stream's time base is a positive rational.
pub open spec fn spec_wf_stream(s: StreamInfo) -> bool {
    s.time_base_num >= 1 && s.time_base_den >= 1
}

/// A well-formed demultiplexed container: every stream has a positive
/// time base.
pub open spec fn spec_wf_input(c: InputContainer) -> bool {
    forall|i: int| 0 <= i < c.streams@.len() ==> spec_wf_stream(#[trigger] c.streams@[i])
}

/// The index of the first stream of medium `t` at or after position `k`,
/// if any.
pub open spec fn spec_first_stream_from(streams: Seq<StreamInfo>, t: MediaType, k: int) -> Option<
    int,
>
    decreases streams.len() - k,
{
    if k < 0 || k >= streams.len() {
        None
    } else if streams[k].media_type == t {
        Some(k)
    } else {
        spec_first_stream_from(streams, t, k + 1)
    }
}

/// The index of the first stream of medium `t`, if any.
pub open spec fn spec_first_stream(streams: Seq<StreamInfo>, t: MediaType) -> Option<int> {
    spec_first_stream_from(streams, t, 0)
}

/// Finds the first stream of the given medium, scanning in container
/// order.
fn find_first_stream(streams: &Vec<StreamInfo>, t: MediaType) -> (r: Option<usize>)
    ensures
        match r {
            Some(i) => spec_first_stream(streams@, t) == Some(i as int) && i < streams@.len()
                && streams@[i as int].media_type == t,
            None => spec_first_stream(streams@, t) is None,
        },
{
    let n = streams.len();
    let mut i: usize = 0;
    while i < n
        invariant
            0 <= i <= n,
            n == streams@.len(),
            spec_first_stream(streams@, t) == spec_first_stream_from(streams@, t, i as int),
        decreases n - i,
    {
        if streams[i].media_type == t {
            return Some(i);
        }
        i += 1;
    }
    None
}

/// The output stream copies the source stream's codec parameters and time
/// base verbatim, resets the codec tag to zero, and carries the
/// attached-picture disposition exactly when asked to.
pub open spec fn spec_stream_copied(out: StreamInfo, src: StreamInfo, attached: bool) -> bool {
    &&& out.media_type == src.media_type
    &&& out.codec_parameters@ == src.codec_parameters@
    &&& out.codec_tag == 0
    &&& out.time_base_num == src.time_base_num
    &&& out.time_base_den == src.time_base_den
    &&& out.attached_picture == attached
}

fn copy_bytes(v: &Vec<u8>) -> (r: Vec<u8>)
    ensures
        r@ == v@,
{
    let n = v.len();
    let mut r: Vec<u8> = Vec::new();
    let mut i: usize = 0;
    while i < n
        invariant
            i <= n,
            n == v@.len(),
            r@ == v@.subrange(0, i as int),
        decreases n - i,
    {
        r.push(v[i]);
        proof {
            assert(r@ =~= v@.subrange(0, i + 1));
        }
        i += 1;
    }
    proof {
        assert(r@ =~= v@);
    }
    r
}

fn copied_stream(src: &StreamInfo, attached: bool) -> (out: StreamInfo)
    ensures
        spec_stream_copied(out, *src, attached),
{
    StreamInfo {
        media_type: src.media_type,
        codec_parameters: copy_bytes(&src.codec_parameters),
        codec_tag: 0,
        time_base_num: src.time_base_num,
        time_base_den: src.time_base_den,
        attached_picture: attached,
    }
}

/// A timestamp in units of the time base `in_num / in_den`, rescaled to
/// units of the time base `out_num / out_den`: the quotient
/// `ts * in_num * out_den / (in_den * out_num)` rounded to the nearest
/// integer with halves away from zero, clamped to the representable
/// range. The two extreme values pass through unchanged: the minimum is
/// the missing-timestamp sentinel. Inside this engine the output stream
/// always copies the source's time base, so the quotient is exact and no
/// rounding ever happens.
pub open spec fn spec_rescale_ts(
    ts: int,
    in_num: int,
    in_den: int,
    out_num: int,
    out_den: int,
) -> int {
    if ts == i64::MIN as int || ts == i64::MAX as int {
        ts
    } else {
        let mag = (if ts >= 0 {
            ts
        } else {
            -ts
        }) * in_num * out_den;
        let den = in_den * out_num;
        let q = (2 * mag + den) / (2 * den);
        let signed = if ts >= 0 {
            q
        } else {
            -q
        };
        if signed > i64::MAX as int {
            i64::MAX as int
        } else if signed < i64::MIN as int {
            i64::MIN as int
        } else {
            signed
        }
    }
}

/// Rescales a timestamp from one stream time base to another.
fn rescale_ts(ts: i64, in_num: u32, in_den: u32, out_num: u32, out_den: u32) -> (r: i64)
    requires
        in_num >= 1,
        in_den >= 1,
        out_num >= 1,
        out_den >= 1,
    ensures
        r as int == spec_rescale_ts(ts as int, in_num as int, in_den as int, out_num as int,
            out_den as int),
{
    if ts == i64::MIN || ts == i64::MAX {
        return ts;
    }
    let neg = ts < 0;
    let mag: u128 = if ts >= 0 {
        ts as u128
    } else {
        (-(ts as i128)) as u128
    };
    proof {
        assert(mag as int <= 0x8000_0000_0000_0000);
        assert((mag as int) * (in_num as int) <= 0x8000_0000_0000_0000 * 0xFFFF_FFFF)
            by (nonlinear_arith)
            requires
                mag as int <= 0x8000_0000_0000_0000,
                0 <= in_num as int <= 0xFFFF_FFFF,
        ;
        assert((mag as int) * (in_num as int) * (out_den as int) <= 0x8000_0000_0000_0000
            * 0xFFFF_FFFF * 0xFFFF_FFFF) by (nonlinear_arith)
            requires
                0 <= (mag as int) * (in_num as int) <= 0x8000_0000_0000_0000 * 0xFFFF_FFFF,
                0 <= out_den as int <= 0xFFFF_FFFF,
        ;
        assert(1 <= (in_den as int) * (out_num as int) <= 0xFFFF_FFFF * 0xFFFF_FFFF)
            by (nonlinear_arith)
            requires
                1 <= in_den as int <= 0xFFFF_FFFF,
                1 <= out_num as int <= 0xFFFF_FFFF,
        ;
    }
    let num: u128 = mag * (in_num as u128) * (out_den as u128);
    let den: u128 = (in_den as u128) * (out_num as u128);
    let q: u128 = (2 * num + den) / (2 * den);
    if neg {
        if q >= 0x8000_0000_0000_0000u128 {
            i64::MIN
        } else {
            -(q as i64)
        }
    } else {
        if q > i64::MAX as u128 {
            i64::MAX
        } else {
            q as i64
        }
    }
}

/// The packets of `ps` that belong to the stream `idx`, in order.
pub open spec fn spec_selected_packets(ps: Seq<Packet>, idx: usize) -> Seq<Packet>
    decreases ps.len(),
{
    if ps.len() == 0 {
        Seq::empty()
    } else if ps.first().stream_index == idx {
        seq![ps.first()] + spec_selected_packets(ps.drop_first(), idx)
    } else {
        spec_selected_packets(ps.drop_first(), idx)
    }
}

/// The output packet carries the source packet's payload verbatim,
/// remapped to the output stream, with its timestamps rescaled from the
/// source stream's time base to the output stream's and its stale
/// position hint cleared.
pub open spec fn spec_packet_remuxed(
    outp: Packet,
    inp: Packet,
    out_idx: usize,
    src: StreamInfo,
    dst: StreamInfo,
) -> bool {
    &&& outp.stream_index == out_idx
    &&& outp.pts as int == spec_rescale_ts(inp.pts as int, src.time_base_num as int,
        src.time_base_den as int, dst.time_base_num as int, dst.time_base_den as int)
    &&& outp.dts as int == spec_rescale_ts(inp.dts as int, src.time_base_num as int,
        src.time_base_den as int, dst.time_base_num as int, dst.time_base_den as int)
    &&& outp.position == -1i64
    &&& outp.data@ == inp.data@
}

/// Every packet of the selection `sel` appears at `out[base + i]`,
/// remuxed to the output stream `out_idx`.
pub open spec fn spec_packets_remuxed(
    out: Seq<Packet>,
    base: int,
    sel: Seq<Packet>,
    out_idx: usize,
    src: StreamInfo,
    dst: StreamInfo,
) -> bool {
    forall|i: int|
        0 <= i < sel.len() ==> spec_packet_remuxed(#[trigger] out[base + i], sel[i], out_idx, src,
            dst)
}

fn remux_packet(p: &Packet, out_idx: usize, src: &StreamInfo, dst: &StreamInfo) -> (r: Packet)
    requires
        spec_wf_stream(*src),
        spec_wf_stream(*dst),
    ensures
        spec_packet_remuxed(r, *p, out_idx, *src, *dst),
{
    Packet {
        stream_index: out_idx,
        pts: rescale_ts(p.pts, src.time_base_num, src.time_base_den, dst.time_base_num,
            dst.time_base_den),
        dts: rescale_ts(p.dts, src.time_base_num, src.time_base_den, dst.time_base_num,
            dst.time_base_den),
        position: -1,
        data: copy_bytes(&p.data),
    }
}

/// Copies every packet of stream `in_idx` from `input` onto the end of
/// `out`, remuxed to the output stream `out_idx`.
fn copy_stream_packets(
    out: &mut Vec<Packet>,
    input: &InputContainer,
    in_idx: usize,
    out_idx: usize,
    src: &StreamInfo,
    dst: &StreamInfo,
)
    requires
        spec_wf_stream(*src),
        spec_wf_stream(*dst),
    ensures
        final(out)@.len() == old(out)@.len() + spec_selected_packets(input.packets@, in_idx).len(),
        final(out)@.subrange(0, old(out)@.len() as int) == old(out)@,
        spec_packets_remuxed(final(out)@, old(out)@.len() as int,
            spec_selected_packets(input.packets@, in_idx), out_idx, *src, *dst),
{
    let ghost base = out@.len() as int;
    let ghost whole = input.packets@;
    let n = input.packets.len();
    let mut k: usize = 0;
    proof {
        assert(whole.skip(0) == whole);
    }
    while k < n
        invariant
            k <= n,
            n == input.packets@.len(),
            whole == input.packets@,
            spec_wf_stream(*src),
            spec_wf_stream(*dst),
            base <= out@.len(),
            out@.subrange(0, base) == old(out)@,
            base == old(out)@.len(),
            spec_selected_packets(whole, in_idx).len() == (out@.len() - base)
                + spec_selected_packets(whole.skip(k as int), in_idx).len(),
            spec_packets_remuxed(out@, base, spec_selected_packets(whole, in_idx).subrange(0,
                out@.len() - base), out_idx, *src, *dst),
            spec_selected_packets(whole, in_idx) == spec_selected_packets(whole, in_idx).subrange(
                0, out@.len() - base) + spec_selected_packets(whole.skip(k as int), in_idx),
        decreases n - k,
    {
        let ghost done = spec_selected_packets(whole, in_idx).subrange(0, out@.len() - base);
        let ghost rest = spec_selected_packets(whole.skip(k as int), in_idx);
        proof {
            assert(whole.skip(k as int).first() == whole[k as int]);
            assert(whole.skip(k as int).drop_first() =~= whole.skip(k + 1));
        }
        let p = &input.packets[k];
        if p.stream_index == in_idx {
            let outp = remux_packet(p, out_idx, src, dst);
            out.push(outp);
            proof {
                let sel = spec_selected_packets(whole, in_idx);
                assert(rest == seq![whole[k as int]] + spec_selected_packets(whole.skip(k + 1),
                    in_idx));
                assert(sel == done + rest);
                assert(sel.len() > done.len());
                assert(sel[done.len() as int] == whole[k as int]);
                assert(sel.subrange(0, out@.len() - base) =~= done.push(whole[k as int]));
                assert(sel =~= sel.subrange(0, out@.len() - base) + spec_selected_packets(
                    whole.skip(k + 1), in_idx));
                assert(out@.subrange(0, base) =~= old(out)@);
            }
        } else {
            proof {
                assert(rest == spec_selected_packets(whole.skip(k + 1), in_idx));
            }
        }
        k += 1;
    }
    proof {
        assert(whole.skip(n as int) =~= Seq::<Packet>::empty());
        assert(spec_selected_packets(whole, in_idx) =~= spec_selected_packets(whole,
            in_idx).subrange(0, out@.len() - base));
    }
}

/// The tag dictionary as a sequence of key/value character sequences.
pub open spec fn spec_dict_view(d: Seq<(String, String)>) -> Seq<(Seq<char>, Seq<char>)> {
    d.map_values(|p: (String, String)| (p.0@, p.1@))
}

/// The dictionary entry an optional tag contributes: one pair when the
/// field is set, nothing when it is unset.
pub open spec fn spec_opt_entry(key: Seq<char>, v: Option<String>) -> Seq<(Seq<char>, Seq<char>)> {
    match v {
        Some(s) => seq![(key, s@)],
        None => Seq::empty(),
    }
}

/// The tag dictionary the remux engine commits for a tag set: `title` and
/// `artist` always present, then each optional field if and only if it is
/// set, in a fixed order.
pub open spec fn spec_metadata_dict(m: Metadata) -> Seq<(Seq<char>, Seq<char>)> {
    seq![("title"@, m.title@), ("artist"@, m.artist@)] + spec_opt_entry("album"@, m.album)
        + spec_opt_entry("album_artist"@, m.album_artist) + spec_opt_entry("composer"@, m.composer)
        + spec_opt_entry("copyright"@, m.copyright) + spec_opt_entry("creation_time"@,
        m.creation_time) + spec_opt_entry("date"@, m.date) + spec_opt_entry("disc"@, m.disc)
        + spec_opt_entry("genre"@, m.genre) + spec_opt_entry("language"@, m.language)
        + spec_opt_entry("performer"@, m.performer) + spec_opt_entry("publisher"@, m.publisher)
        + spec_opt_entry("track"@, m.track)
}

fn push_tag(dict: &mut Vec<(String, String)>, key: &str, value: &String)
    ensures
        spec_dict_view(final(dict)@) == spec_dict_view(old(dict)@) + seq![(key@, value@)],
{
    dict.push((String::from_str(key), value.clone()));
    proof {
        assert(spec_dict_view(dict@) =~= spec_dict_view(old(dict)@) + seq![(key@, value@)]);
    }
}

fn push_opt_tag(dict: &mut Vec<(String, String)>, key: &str, value: &Option<String>)
    ensures
        spec_dict_view(final(dict)@) == spec_dict_view(old(dict)@) + spec_opt_entry(key@, *value),
{
    match value {
        Some(v) => {
            push_tag(dict, key, v);
        },
        None => {
            proof {
                assert(spec_dict_view(dict@) =~= spec_dict_view(dict@) + spec_opt_entry(key@,
                    *value));
            }
        },
    }
}

/// Builds the output tag dictionary for a tag set.
fn build_metadata_dict(m: &Metadata) -> (dict: Vec<(String, String)>)
    ensures
        spec_dict_view(dict@) == spec_metadata_dict(*m),
{
    let mut dict: Vec<(String, String)> = Vec::new();
    proof {
        assert(spec_dict_view(dict@) =~= Seq::<(Seq<char>, Seq<char>)>::empty());
    }
    push_tag(&mut dict, "title", &m.title);
    push_tag(&mut dict, "artist", &m.artist);
    proof {
        assert(spec_dict_view(dict@) =~= seq![("title"@, m.title@), ("artist"@, m.artist@)]);
    }
    push_opt_tag(&mut dict, "album", &m.album);
    push_opt_tag(&mut dict, "album_artist", &m.album_artist);
    push_opt_tag(&mut dict, "composer", &m.composer);
    push_opt_tag(&mut dict, "copyright", &m.copyright);
    push_opt_tag(&mut dict, "creation_time", &m.creation_time);
    push_opt_tag(&mut dict, "date", &m.date);
    push_opt_tag(&mut dict, "disc", &m.disc);
    push_opt_tag(&mut dict, "genre", &m.genre);
    push_opt_tag(&mut dict, "language", &m.language);
    push_opt_tag(&mut dict, "performer", &m.performer);
    push_opt_tag(&mut dict, "publisher", &m.publisher);
    push_opt_tag(&mut dict, "track", &m.track);
    dict
}

/// The index of the audio stream the engine selects from the audio input:
/// the first audio-typed stream, if the input has one.
pub open spec fn spec_selected_audio(audio: InputContainer) -> Option<int> {
    spec_first_stream(audio.streams@, MediaType::Audio)
}

/// The index of the cover stream the engine selects from the cover input,
/// when a cover input is supplied: the first image/video-typed stream, if
/// the input has one. A cover input with no such stream is silently
/// skipped.
pub open spec fn spec_selected_cover(cover: Option<InputContainer>) -> Option<int> {
    match cover {
        Some(c) => spec_first_stream(c.streams@, MediaType::Video),
        None => None,
    }
}

/// What a successful remux returns, for the selected audio stream `ai`
/// and, when a cover stream was selected, the cover stream `ci`.
pub open spec fn spec_remux_ok(
    audio: InputContainer,
    cover: Option<InputContainer>,
    m: Metadata,
    out: OutputContainer,
) -> bool {
    let ai = spec_selected_audio(audio)->Some_0;
    let audio_src = audio.streams@[ai];
    let audio_sel = spec_selected_packets(audio.packets@, ai as usize);
    &&& spec_selected_audio(audio) is Some
    &&& spec_dict_view(out.metadata@) == spec_metadata_dict(m)
    &&& spec_stream_copied(out.streams@[0], audio_src, false)
    &&& spec_packets_remuxed(out.packets@, 0, audio_sel, 0, audio_src, out.streams@[0])
    &&& match spec_selected_cover(cover) {
        Some(ci) => {
            let cover_src = cover->Some_0.streams@[ci];
            let cover_sel = spec_selected_packets(cover->Some_0.packets@, ci as usize);
            &&& out.streams@.len() == 2
            &&& spec_stream_copied(out.streams@[1], cover_src, true)
            &&& out.packets@.len() == audio_sel.len() + cover_sel.len()
            &&& spec_packets_remuxed(out.packets@, audio_sel.len() as int, cover_sel, 1, cover_src,
                out.streams@[1])
        },
        None => {
            &&& out.streams@.len() == 1
            &&& out.packets@.len() == audio_sel.len()
        },
    }
}

/// Merges the first audio stream of the audio input and, when present and
/// usable, the first image stream of the cover input into one output
/// container: codec data is copied verbatim with the codec tag reset, the
/// cover stream carries the attached-picture disposition, the tag
/// dictionary is written from the tag set, and every selected packet is
/// rescaled and remapped in source order, audio first.
///
/// Fails with a remux error exactly when the audio input has no
/// audio-typed stream; no output container exists in that case. A cover
/// input without a usable image stream is skipped, not an error.
pub fn remux(
    input_audio: &InputContainer,
    input_cover: Option<&InputContainer>,
    metadata: &Metadata,
) -> (r: Result<OutputContainer, Error>)
    requires
        spec_wf_input(*input_audio),
        input_cover is Some ==> spec_wf_input(*input_cover->Some_0),
    ensures
        r is Ok <==> spec_selected_audio(*input_audio) is Some,
        r is Ok ==> spec_remux_ok(*input_audio, match input_cover {
            Some(c) => Some(*c),
            None => None,
        }, *metadata, r->Ok_0),
        r is Err ==> (r->Err_0 matches Error::RemuxError(msg) && msg@ == "cannot find stream"@),
{
    let audio_idx = match find_first_stream(&input_audio.streams, MediaType::Audio) {
        Some(i) => i,
        None => {
            return Err(Error::RemuxError(String::from_str("cannot find stream")));
        },
    };
    let audio_src = &input_audio.streams[audio_idx];

    let mut streams: Vec<StreamInfo> = Vec::new();
    streams.push(copied_stream(audio_src, false));

    let cover_sel: Option<(&InputContainer, usize)> = match input_cover {
        Some(c) => {
            match find_first_stream(&c.streams, MediaType::Video) {
                Some(ci) => {
                    streams.push(copied_stream(&c.streams[ci], true));
                    Some((c, ci))
                },
                None => None,
            }
        },
        None => None,
    };

    let dict = build_metadata_dict(metadata);

    let mut packets: Vec<Packet> = Vec::new();
    let dst0 = &streams[0];
    copy_stream_packets(&mut packets, input_audio, audio_idx, 0, audio_src, dst0);
    let ghost audio_count = packets@.len();

    match cover_sel {
        Some((c, ci)) => {
            let cover_src = &c.streams[ci];
            let dst1 = &streams[1];
            copy_stream_packets(&mut packets, c, ci, 1, cover_src, dst1);
            proof {
                let audio_sel = spec_selected_packets(input_audio.packets@, audio_idx);
                assert forall|i: int| 0 <= i < audio_sel.len() implies spec_packet_remuxed(
                    #[trigger] packets@[i],
                    audio_sel[i],
                    0,
                    input_audio.streams@[audio_idx as int],
                    streams@[0],
                ) by {
                    let prev = packets@.subrange(0, audio_count as int);
                    assert(spec_packet_remuxed(prev[0 + i], audio_sel[i], 0,
                        input_audio.streams@[audio_idx as int], streams@[0]));
                    assert(prev[0 + i] == packets@[i]);
                }
            }
        },
        None => {},
    }

    proof {
        let ghost_cover = match input_cover {
            Some(c) => Some(*c),
            None => None,
        };
        assert(spec_selected_audio(*input_audio) == Some(audio_idx as int));
        assert((audio_idx as int) as usize == audio_idx);
        if cover_sel is None {
            assert(spec_selected_cover(ghost_cover) is None);
        }
    }
    Ok(OutputContainer { streams, metadata: dict, packets })
}

} // verus!
