//! The bundle writer's decisions: checking the request, naming the
//! artifacts, rendering both templates, and the fixed order of the writes.
use vstd::prelude::*;
use vstd::string::StringExecFns;
use crate::canvas::{
    black_canvas, blank_canvas, decoded_rgba, encode_texture, is_thumbnail_of, rgb888_texture,
    thumbnail_canvas,
};
use crate::error::ReplayError;
use crate::handle::{descriptor_count, next_handle};
use crate::template::{render_template, substituted, token_text, Placeholder, Substitution};
use crate::text::{decimal, decimal_string, lemma_replace_char, replace_all, replaced};
use crate::timestamp::{
    packed_date, packed_time, timestamp_fields, year_supported, LocalStamp, TimestampFields,
};

verus! {

/// The header fields of a demo that a bundle uses.
pub struct DemoHeader {
    pub map: String,
    pub nickname: String,
    pub server: String,
    /// The duration in seconds, in default decimal notation.
    pub length: String,
    pub ticks: u32,
}

/// Map, nickname, server, length and tick count of a header.
pub open spec fn header_view(h: DemoHeader) -> (Seq<char>, Seq<char>, Seq<char>, Seq<char>, u32) {
    (h.map@, h.nickname@, h.server@, h.length@, h.ticks)
}

/// What tf_demo_parser reads as the header at the start of `bytes`: map,
/// nickname, server, duration in default float notation and tick count;
/// `None` where reading fails.
pub uninterp spec fn demo_header_of(bytes: Seq<u8>) -> Option<(Seq<char>, Seq<char>, Seq<char>, Seq<char>, u32)>;

/// What the caller hands over for one bundle.
pub struct ReplayRequest {
    pub header: Option<DemoHeader>,
    pub install_root: Option<String>,
    pub demo_file: Option<String>,
    pub replay_name: String,
}

/// Everything a bundle writes, with paths relative to the installation
/// folder.
pub struct BundlePlan {
    pub stem: String,
    pub descriptor_path: String,
    pub descriptor: String,
    pub demo_path: String,
    pub material_path: String,
    pub material: String,
    pub texture_path: String,
    pub texture: Vec<u8>,
}

/// The result of the filenamify crate on a name.
pub uninterp spec fn sanitized_name(name: Seq<char>) -> Seq<char>;

/// A character that file names may not hold.
pub open spec fn is_reserved_char(c: char) -> bool {
    ||| c == '<' || c == '>' || c == ':' || c == '"' || c == '/' || c == '\\'
    ||| c == '|' || c == '?' || c == '*'
    ||| (c as u32) <= 0x1f
    ||| 0x7f <= (c as u32) <= 0x9f
}

#[verifier::external_type_specification]
#[verifier::external_body]
pub struct ExBitError(bitbuffer::BitError);

/// Relies on filenamify::filenamify: each run of reserved characters
/// becomes one `_`, and so does each run of dots at either end, so that
/// nothing reserved stays, no dot opens or closes the result, and only an
/// empty name gives an empty result.
#[verifier::external_body]
fn filenamify_name(name: &str) -> (r: String)
    ensures
        r@ == sanitized_name(name@),
        r@.len() == 0 <==> name@.len() == 0,
        forall|i: int| 0 <= i < r@.len() ==> !is_reserved_char(#[trigger] r@[i]),
        r@.len() > 0 ==> r@[0] != '.' && r@[r@.len() - 1] != '.',
{
    filenamify::filenamify(name)
}

/// Relies on chrono::Local::now with chrono's Datelike and Timelike
/// accessors: months and days count from one, hours and minutes from zero.
#[verifier::external_body]
fn local_now() -> (r: LocalStamp)
    ensures
        r.wf(),
{
    let now = chrono::Local::now();
    LocalStamp {
        year: chrono::Datelike::year(&now),
        month: chrono::Datelike::month(&now),
        day: chrono::Datelike::day(&now),
        hour: chrono::Timelike::hour(&now),
        minute: chrono::Timelike::minute(&now),
    }
}

/// Relies on tf_demo_parser's Header, read through bitbuffer's BitRead from
/// the start of the demo; the duration is written in Rust's default float
/// notation.
#[verifier::external_body]
fn parse_demo_header(bytes: &[u8]) -> (r: Result<DemoHeader, bitbuffer::BitError>)
    ensures
        r is Ok <==> demo_header_of(bytes@) is Some,
        r matches Ok(h) ==> demo_header_of(bytes@) == Some(header_view(h)),
{
    let demo = tf_demo_parser::Demo::new(bytes);
    let mut stream = demo.get_stream();
    let h: tf_demo_parser::demo::header::Header = bitbuffer::BitRead::read(&mut stream)?;
    Ok(DemoHeader {
        map: h.map,
        nickname: h.nick,
        server: h.server,
        length: format!("{}", h.duration),
        ticks: h.ticks,
    })
}

/// Reads the header of a demo file's bytes.
pub fn read_demo_header(bytes: &[u8]) -> (r: Result<DemoHeader, ReplayError>)
    ensures
        demo_header_of(bytes@) matches Some(v) ==> r matches Ok(h) && header_view(h) == v,
        demo_header_of(bytes@) is None ==> r == Err::<DemoHeader, ReplayError>(
            ReplayError::DemoHeaderUnreadable,
        ),
{
    match parse_demo_header(bytes) {
        Ok(h) => Ok(h),
        Err(_) => Err(ReplayError::DemoHeaderUnreadable),
    }
}

/// The file stem for a replay name: made safe for file names by the
/// filenamify crate, then each apostrophe replaced by `_`.
pub open spec fn stem_of(replay_name: Seq<char>) -> Seq<char> {
    replaced(sanitized_name(replay_name), seq!['\''], seq!['_'])
}

/// The file stem of a replay's artifacts: its name made safe for file
/// names, with no reserved character and no apostrophe.
pub fn file_stem(replay_name: &str) -> (r: String)
    ensures
        r@ == stem_of(replay_name@),
        r@.len() == 0 <==> replay_name@.len() == 0,
        forall|i: int| 0 <= i < r@.len() ==> !is_reserved_char(#[trigger] r@[i]) && r@[i] != '\'',
{
    let safe = filenamify_name(replay_name);
    proof {
        reveal_strlit("'");
        reveal_strlit("_");
        lemma_replace_char(safe@, '\'', '_');
    }
    let r = replace_all(safe.as_str(), "'", "_");
    assert("'"@ =~= seq!['\'']);
    assert("_"@ =~= seq!['_']);
    assert forall|i: int| 0 <= i < r@.len() implies !is_reserved_char(#[trigger] r@[i]) && r@[i]
        != '\'' by {
        assert(r@[i] == replaced(safe@, seq!['\''], seq!['_'])[i]);
    }
    r
}

/// The first precondition that a request misses, if any.
pub open spec fn request_error(req: ReplayRequest) -> Option<ReplayError> {
    if req.header is None {
        Some(ReplayError::NoValidDemo)
    } else if req.install_root is None {
        Some(ReplayError::NoInstallDir)
    } else if req.demo_file is None {
        Some(ReplayError::NoDemoFile)
    } else {
        None
    }
}

/// Checks that a request names a read demo header, an installation folder
/// and a demo file, in that order.
pub fn check_request(req: &ReplayRequest) -> (r: Result<(), ReplayError>)
    ensures
        r is Ok <==> request_error(*req) is None,
        r matches Err(e) ==> Some(e) == request_error(*req),
{
    if req.header.is_none() {
        Err(ReplayError::NoValidDemo)
    } else if req.install_root.is_none() {
        Err(ReplayError::NoInstallDir)
    } else if req.demo_file.is_none() {
        Err(ReplayError::NoDemoFile)
    } else {
        Ok(())
    }
}

/// The folder of descriptors and demos, under the installation folder.
pub open spec fn replay_dir() -> Seq<char> {
    "tf/replay/client/replays/"@
}

/// The folder of thumbnails, under the installation folder.
pub open spec fn thumbnail_dir() -> Seq<char> {
    "tf/materials/vgui/replay/thumbnails/"@
}

/// Whether an artifact named after `stem` already stands in either folder.
pub open spec fn name_taken(stem: Seq<char>, replay_entries: Seq<String>, thumbnail_entries: Seq<
    String,
>) -> bool {
    ||| exists|i: int|
        0 <= i < replay_entries.len() && (#[trigger] replay_entries[i]@ == stem + ".dmx"@
            || replay_entries[i]@ == stem + ".dem"@)
    ||| exists|i: int|
        0 <= i < thumbnail_entries.len() && (#[trigger] thumbnail_entries[i]@ == stem + ".vmt"@
            || thumbnail_entries[i]@ == stem + ".vtf"@)
}

fn contains_either(entries: &Vec<String>, a: &String, b: &String) -> (r: bool)
    ensures
        r == exists|i: int|
            0 <= i < entries@.len() && (#[trigger] entries@[i]@ == a@ || entries@[i]@ == b@),
{
    let mut i: usize = 0;
    while i < entries.len()
        invariant
            i <= entries@.len(),
            forall|k: int| 0 <= k < i ==> !(#[trigger] entries@[k]@ == a@ || entries@[k]@ == b@),
        decreases entries@.len() - i,
    {
        if entries[i] == *a || entries[i] == *b {
            return true;
        }
        i = i + 1;
    }
    false
}

fn with_suffix(stem: &String, suffix: &str) -> (r: String)
    ensures
        r@ == stem@ + suffix@,
{
    stem.clone().concat(suffix)
}

/// Whether an artifact of this stem already stands at its destination,
/// given the entry names of the replay folder and of the thumbnail folder.
pub fn stem_taken(stem: &String, replay_entries: &Vec<String>, thumbnail_entries: &Vec<String>) -> (r:
    bool)
    ensures
        r == name_taken(stem@, replay_entries@, thumbnail_entries@),
{
    let dmx = with_suffix(stem, ".dmx");
    let dem = with_suffix(stem, ".dem");
    let vmt = with_suffix(stem, ".vmt");
    let vtf = with_suffix(stem, ".vtf");
    contains_either(replay_entries, &dmx, &dem) || contains_either(thumbnail_entries, &vmt, &vtf)
}

/// The descriptor template with each placeholder filled in, in the order
/// replay name, map, length, title, demo, screenshot, date, time, handle.
pub open spec fn descriptor_text(
    t: Seq<char>,
    stem: Seq<char>,
    map: Seq<char>,
    length: Seq<char>,
    title: Seq<char>,
    date: nat,
    time: nat,
    handle: nat,
) -> Seq<char> {
    let t1 = replaced(t, token_text(Placeholder::ReplayName), stem);
    let t2 = replaced(t1, token_text(Placeholder::MapName), map);
    let t3 = replaced(t2, token_text(Placeholder::Length), length);
    let t4 = replaced(t3, token_text(Placeholder::Title), title);
    let t5 = replaced(t4, token_text(Placeholder::Demo), stem + ".dem"@);
    let t6 = replaced(t5, token_text(Placeholder::Screenshot), stem);
    let t7 = replaced(t6, token_text(Placeholder::Date), decimal(date));
    let t8 = replaced(t7, token_text(Placeholder::Time), decimal(time));
    replaced(t8, token_text(Placeholder::Handle), decimal(handle))
}

/// The material template with the screenshot placeholder filled in.
pub open spec fn material_text(t: Seq<char>, stem: Seq<char>) -> Seq<char> {
    replaced(t, token_text(Placeholder::Screenshot), stem)
}

/// Renders the descriptor template.
pub fn render_descriptor(
    template: &str,
    stem: &String,
    header: &DemoHeader,
    title: &String,
    fields: TimestampFields,
    handle: usize,
) -> (r: String)
    ensures
        r@ == descriptor_text(
            template@,
            stem@,
            header.map@,
            header.length@,
            title@,
            fields.date as nat,
            fields.time as nat,
            handle as nat,
        ),
{
    let mut subs: Vec<Substitution> = Vec::new();
    subs.push(Substitution { placeholder: Placeholder::ReplayName, value: stem.clone() });
    subs.push(Substitution { placeholder: Placeholder::MapName, value: header.map.clone() });
    subs.push(Substitution { placeholder: Placeholder::Length, value: header.length.clone() });
    subs.push(Substitution { placeholder: Placeholder::Title, value: title.clone() });
    subs.push(Substitution { placeholder: Placeholder::Demo, value: with_suffix(stem, ".dem") });
    subs.push(Substitution { placeholder: Placeholder::Screenshot, value: stem.clone() });
    subs.push(
        Substitution { placeholder: Placeholder::Date, value: decimal_string(fields.date as u64) },
    );
    subs.push(
        Substitution { placeholder: Placeholder::Time, value: decimal_string(fields.time as u64) },
    );
    subs.push(
        Substitution { placeholder: Placeholder::Handle, value: decimal_string(handle as u64) },
    );
    let r = render_template(template, &subs);
    proof {
        reveal_with_fuel(substituted, 10);
    }
    r
}

/// Renders the material template.
pub fn render_material(template: &str, stem: &String) -> (r: String)
    ensures
        r@ == material_text(template@, stem@),
{
    let mut subs: Vec<Substitution> = Vec::new();
    subs.push(Substitution { placeholder: Placeholder::Screenshot, value: stem.clone() });
    let r = render_template(template, &subs);
    proof {
        reveal_with_fuel(substituted, 2);
    }
    r
}

} // verus!

verus! {

/// The plan of a bundle, as the request, the folder listings, the clock
/// reading and the encoded texture determine it.
pub open spec fn plan_matches(
    p: BundlePlan,
    header: DemoHeader,
    title: Seq<char>,
    handle: nat,
    stamp: LocalStamp,
    descriptor_template: Seq<char>,
    material_template: Seq<char>,
    texture: Seq<u8>,
) -> bool {
    let stem = stem_of(title);
    &&& p.stem@ == stem
    &&& p.descriptor_path@ == replay_dir() + stem + ".dmx"@
    &&& p.demo_path@ == replay_dir() + stem + ".dem"@
    &&& p.material_path@ == thumbnail_dir() + stem + ".vmt"@
    &&& p.texture_path@ == thumbnail_dir() + stem + ".vtf"@
    &&& p.descriptor@ == descriptor_text(
        descriptor_template,
        stem,
        header.map@,
        header.length@,
        title,
        packed_date(stamp.year as int, stamp.month as int, stamp.day as int) as nat,
        packed_time(stamp.hour as int, stamp.minute as int) as nat,
        handle,
    )
    &&& p.material@ == material_text(material_template, stem)
    &&& p.texture@ == texture
}

/// The outcome that a request, the two folder listings, a clock reading and
/// an encoded texture call for: the first missing precondition, an empty or
/// taken file stem, a year the packed date cannot hold, or the plan.
pub open spec fn plan_outcome(
    r: Result<BundlePlan, ReplayError>,
    req: ReplayRequest,
    replay_entries: Seq<String>,
    thumbnail_entries: Seq<String>,
    stamp: LocalStamp,
    descriptor_template: Seq<char>,
    material_template: Seq<char>,
    texture: Seq<u8>,
) -> bool {
    let stem = stem_of(req.replay_name@);
    if request_error(req) is Some {
        r == Err::<BundlePlan, ReplayError>(request_error(req)->0)
    } else if stem.len() == 0 {
        r == Err::<BundlePlan, ReplayError>(ReplayError::EmptyName)
    } else if name_taken(stem, replay_entries, thumbnail_entries) {
        r == Err::<BundlePlan, ReplayError>(ReplayError::NameTaken)
    } else if !year_supported(stamp.year as int) {
        r == Err::<BundlePlan, ReplayError>(ReplayError::UnsupportedYear(stamp.year))
    } else {
        r matches Ok(p) && plan_matches(
            p,
            req.header->0,
            req.replay_name@,
            descriptor_count(replay_entries),
            stamp,
            descriptor_template,
            material_template,
            texture,
        )
    }
}

fn under(dir: &str, stem: &String, suffix: &str) -> (r: String)
    ensures
        r@ == dir@ + stem@ + suffix@,
{
    String::from_str(dir).concat(stem.as_str()).concat(suffix)
}

/// Plans a bundle from a request, the entry names of the replay folder and
/// of the thumbnail folder, a clock reading and the encoded texture.
pub fn plan_bundle(
    req: &ReplayRequest,
    replay_entries: &Vec<String>,
    thumbnail_entries: &Vec<String>,
    stamp: LocalStamp,
    descriptor_template: &str,
    material_template: &str,
    texture: Vec<u8>,
) -> (r: Result<BundlePlan, ReplayError>)
    requires
        stamp.wf(),
    ensures
        plan_outcome(
            r,
            *req,
            replay_entries@,
            thumbnail_entries@,
            stamp,
            descriptor_template@,
            material_template@,
            texture@,
        ),
{
    match check_request(req) {
        Err(e) => {
            return Err(e);
        },
        Ok(()) => {},
    }
    let header = match &req.header {
        Some(h) => h,
        None => {
            return Err(ReplayError::NoValidDemo);
        },
    };
    let stem = file_stem(req.replay_name.as_str());
    if stem.unicode_len() == 0 {
        return Err(ReplayError::EmptyName);
    }
    if stem_taken(&stem, replay_entries, thumbnail_entries) {
        return Err(ReplayError::NameTaken);
    }
    let handle = next_handle(replay_entries);
    let fields = match timestamp_fields(stamp) {
        Ok(f) => f,
        Err(e) => {
            return Err(ReplayError::UnsupportedYear(e.year));
        },
    };
    let descriptor = render_descriptor(
        descriptor_template,
        &stem,
        header,
        &req.replay_name,
        fields,
        handle,
    );
    let material = render_material(material_template, &stem);
    Ok(
        BundlePlan {
            descriptor_path: under("tf/replay/client/replays/", &stem, ".dmx"),
            descriptor,
            demo_path: under("tf/replay/client/replays/", &stem, ".dem"),
            material_path: under("tf/materials/vgui/replay/thumbnails/", &stem, ".vmt"),
            material,
            texture_path: under("tf/materials/vgui/replay/thumbnails/", &stem, ".vtf"),
            texture,
            stem,
        },
    )
}

/// Whether `pixels` is the canvas that the thumbnail bytes call for: all
/// black where none are given, else the thumbnail of what they decode to.
pub open spec fn is_canvas_for(pixels: Seq<u8>, thumbnail: Option<Seq<u8>>) -> bool {
    match thumbnail {
        None => pixels == black_canvas(),
        Some(b) => decoded_rgba(b) matches Some(d) && is_thumbnail_of(
            pixels,
            d.0 as nat,
            d.1 as nat,
            d.2,
        ),
    }
}

/// The view of optional thumbnail bytes.
pub open spec fn thumbnail_view(thumbnail_bytes: Option<&[u8]>) -> Option<Seq<u8>> {
    match thumbnail_bytes {
        None => None,
        Some(b) => Some(b@),
    }
}

/// Whether thumbnail bytes, where given, decode as an image.
pub open spec fn thumbnail_decodes(thumbnail: Option<Seq<u8>>) -> bool {
    match thumbnail {
        None => true,
        Some(b) => decoded_rgba(b) is Some,
    }
}

/// Assembles the plan of a bundle: reads the clock, composes the thumbnail
/// canvas from the thumbnail bytes (an all-black canvas where none are
/// given) and encodes its texture, then plans. A missing precondition or
/// an undecodable thumbnail stops it; otherwise the outcome is that of
/// `plan_bundle` for the clock reading taken and that texture.
pub fn assemble_bundle(
    req: &ReplayRequest,
    replay_entries: &Vec<String>,
    thumbnail_entries: &Vec<String>,
    thumbnail_bytes: Option<&[u8]>,
    descriptor_template: &str,
    material_template: &str,
) -> (r: Result<BundlePlan, ReplayError>)
    ensures
        request_error(*req) matches Some(e) ==> r == Err::<BundlePlan, ReplayError>(e),
        request_error(*req) is None && !thumbnail_decodes(thumbnail_view(thumbnail_bytes)) ==> r == Err::<BundlePlan, ReplayError>(ReplayError::ThumbnailUnreadable),
        request_error(*req) is None && thumbnail_decodes(thumbnail_view(thumbnail_bytes)) ==> exists|stamp: LocalStamp, canvas: Seq<u8>|
            stamp.wf() && is_canvas_for(canvas, thumbnail_view(thumbnail_bytes)) && plan_outcome(
                r,
                *req,
                replay_entries@,
                thumbnail_entries@,
                stamp,
                descriptor_template@,
                material_template@,
                rgb888_texture(canvas),
            ),
{
    match check_request(req) {
        Err(e) => {
            return Err(e);
        },
        Ok(()) => {},
    }
    let stamp = local_now();
    let canvas = match thumbnail_bytes {
        Some(bytes) => match thumbnail_canvas(bytes) {
            Ok(c) => c,
            Err(e) => {
                return Err(e);
            },
        },
        None => blank_canvas(),
    };
    let texture = encode_texture(&canvas);
    let r = plan_bundle(
        req,
        replay_entries,
        thumbnail_entries,
        stamp,
        descriptor_template,
        material_template,
        texture,
    );
    assert(is_canvas_for(canvas.pixels@, thumbnail_view(thumbnail_bytes)));
    r
}

/// The four artifacts of a bundle, in the order they are written.
#[derive(Debug, Clone, Copy, PartialEq, Eq)]
pub enum Artifact {
    Descriptor,
    Demo,
    Material,
    Texture,
}

/// Where the writing of a bundle stands.
#[derive(Debug, Clone, Copy, PartialEq, Eq)]
pub enum WriteState {
    /// This artifact is to be written next.
    Pending(Artifact),
    /// All four artifacts were written.
    Done,
    /// Writing this artifact failed; those before it stay on disk.
    Failed(Artifact),
}

/// The artifact written after `a`, if any.
pub open spec fn successor(a: Artifact) -> Option<Artifact> {
    match a {
        Artifact::Descriptor => Some(Artifact::Demo),
        Artifact::Demo => Some(Artifact::Material),
        Artifact::Material => Some(Artifact::Texture),
        Artifact::Texture => None,
    }
}

/// Writing starts with the descriptor.
pub fn first_write() -> (r: WriteState)
    ensures
        r == WriteState::Pending(Artifact::Descriptor),
{
    WriteState::Pending(Artifact::Descriptor)
}

/// The state after the pending write has been tried: on success the next
/// artifact, or done after the texture; on failure the run stops there.
/// Done and failed are final.
pub fn after_write(state: WriteState, succeeded: bool) -> (r: WriteState)
    ensures
        state matches WriteState::Pending(a) ==> r == (if !succeeded {
            WriteState::Failed(a)
        } else if successor(a) is Some {
            WriteState::Pending(successor(a)->0)
        } else {
            WriteState::Done
        }),
        !(state is Pending) ==> r == state,
{
    match state {
        WriteState::Pending(a) => {
            if !succeeded {
                WriteState::Failed(a)
            } else {
                match a {
                    Artifact::Descriptor => WriteState::Pending(Artifact::Demo),
                    Artifact::Demo => WriteState::Pending(Artifact::Material),
                    Artifact::Material => WriteState::Pending(Artifact::Texture),
                    Artifact::Texture => WriteState::Done,
                }
            }
        },
        _ => state,
    }
}

} // verus!

verus! {

/// The decimal notation of a signed integer, with `-` before a negative one.
pub open spec fn signed_decimal(n: int) -> Seq<char> {
    if n < 0 {
        "-"@ + decimal((-n) as nat)
    } else {
        decimal(n as nat)
    }
}

/// The name offered for a replay when its demo is loaded: the clock
/// reading, then who recorded it and on which map.
pub open spec fn default_name_text(stamp: LocalStamp, nickname: Seq<char>, map: Seq<char>) -> Seq<
    char,
> {
    signed_decimal(stamp.year as int) + "-"@ + decimal(stamp.month as nat) + "-"@ + decimal(
        stamp.day as nat,
    ) + " "@ + decimal(stamp.hour as nat) + ":"@ + decimal(stamp.minute as nat) + " - "@
        + nickname + " on "@ + map
}

/// The name offered for a replay when its demo is loaded, as
/// `year-month-day hour:minute - nickname on map`.
pub fn default_replay_name(stamp: LocalStamp, header: &DemoHeader) -> (r: String)
    ensures
        r@ == default_name_text(stamp, header.nickname@, header.map@),
{
    let mut s = if stamp.year < 0 {
        let magnitude: i64 = -(stamp.year as i64);
        String::from_str("-").concat(decimal_string(magnitude as u64).as_str())
    } else {
        decimal_string(stamp.year as u64)
    };
    s.append("-");
    s.append(decimal_string(stamp.month as u64).as_str());
    s.append("-");
    s.append(decimal_string(stamp.day as u64).as_str());
    s.append(" ");
    s.append(decimal_string(stamp.hour as u64).as_str());
    s.append(":");
    s.append(decimal_string(stamp.minute as u64).as_str());
    s.append(" - ");
    s.append(header.nickname.as_str());
    s.append(" on ");
    s.append(header.map.as_str());
    s
}

/// The name offered for a replay when its demo is loaded now.
pub fn default_replay_name_now(header: &DemoHeader) -> (r: String)
    ensures
        exists|stamp: LocalStamp|
            stamp.wf() && r@ == default_name_text(stamp, header.nickname@, header.map@),
{
    let stamp = local_now();
    default_replay_name(stamp, header)
}

} // verus!
