//! The cache of map thumbnails: the name under which a thumbnail is kept,
//! the two tools that make one, and the order in which a request reads,
//! renders and reads again.

use crate::gbfs::StationInfoObj;
use std::collections::HashSet;
use vstd::prelude::*;
use vstd::std_specs::cmp::PartialEqSpec;
use vstd::string::{StringExecFns, StringSliceAdditionalSpecFns};

verus! {

broadcast use vstd::std_specs::hash::group_hash_axioms;

/// Whether `needle` stands in `haystack` at position `at`, element for
/// element by the elements' own equality.
pub open spec fn occurs_at<T: PartialEq>(haystack: Seq<T>, needle: Seq<T>, at: int) -> bool {
    &&& 0 <= at
    &&& at + needle.len() <= haystack.len()
    &&& forall|k: int| 0 <= k < needle.len() ==> (#[trigger] haystack[at + k]).eq_spec(&needle[k])
}

/// The first position at which `needle` stands in `haystack`, if there is
/// one.
pub fn find_subsequence<T: PartialEq>(haystack: &[T], needle: &[T]) -> (found: Option<usize>)
    requires
        needle.len() > 0,
    ensures
        T::obeys_eq_spec() ==> match found {
            Some(at) => {
                &&& occurs_at(haystack@, needle@, at as int)
                &&& forall|earlier: int|
                    0 <= earlier < at ==> !occurs_at(haystack@, needle@, earlier)
            },
            None => forall|at: int| !occurs_at(haystack@, needle@, at),
        },
{
    if haystack.len() < needle.len() {
        return None;
    }
    let last: usize = haystack.len() - needle.len();
    let mut at: usize = 0;
    while at <= last
        invariant
            needle.len() > 0,
            last == haystack.len() - needle.len(),
            at <= last + 1,
            T::obeys_eq_spec() ==> forall|earlier: int|
                0 <= earlier < at ==> !occurs_at(haystack@, needle@, earlier),
        decreases last + 1 - at,
    {
        let mut k: usize = 0;
        let mut same: bool = true;
        while k < needle.len() && same
            invariant
                at <= last,
                last == haystack.len() - needle.len(),
                k <= needle.len(),
                T::obeys_eq_spec() ==> (same <==> forall|j: int|
                    0 <= j < k ==> (#[trigger] haystack@[at + j]).eq_spec(&needle@[j])),
            decreases needle.len() - k + (if same { 1int } else { 0int }),
        {
            if haystack[at + k] == needle[k] {
                k = k + 1;
            } else {
                same = false;
                k = k + 1;
            }
        }
        if same {
            return Some(at);
        }
        at = at + 1;
    }
    None
}

/// The option that the rendering tool must know, as the bytes of its name.
pub open spec fn attribution_flag() -> Seq<u8> {
    "--attribution".spec_bytes()
}

/// Whether the rendering tool's help text names the option that switches the
/// attribution line off. A tool that does not know the option cannot be used.
pub fn supports_attribution(help_message: &[u8]) -> (supported: bool)
    ensures
        supported <==> exists|at: int| occurs_at(help_message@, attribution_flag(), at),
{
    let flag = "--attribution";
    proof {
        reveal_strlit("--attribution");
        vstd::string::is_ascii_spec_bytes(flag);
    }
    let needle = flag.as_bytes();
    match find_subsequence(help_message, needle) {
        Some(at) => {
            assert(occurs_at(help_message@, attribution_flag(), at as int));
            true
        },
        None => false,
    }
}

/// The name of the file that holds the thumbnail for a pair of coordinates:
/// the latitude and the longitude as they are written, with a comma between
/// them, and the extension of a PNG image.
pub open spec fn file_name_of(lat: Seq<char>, lon: Seq<char>) -> Seq<char> {
    lat + ","@ + lon + ".png"@
}

/// The name of the cache file for the coordinates with these texts. The texts
/// are taken as they are: nothing is rounded or brought to a common form, so
/// coordinates that are written alike share a file.
pub fn cache_file_name(lat: &str, lon: &str) -> (name: String)
    ensures
        name@ == file_name_of(lat@, lon@),
{
    let mut name = String::from_str(lat);
    name.append(",");
    name.append(lon);
    name.append(".png");
    name
}

/// A program to run, with its arguments in order.
#[derive(Clone, Debug, PartialEq, Eq)]
pub struct Invocation {
    pub program: String,
    pub args: Vec<String>,
}

/// An `Invocation` with its texts as sequences of characters.
pub struct InvocationView {
    pub program: Seq<char>,
    pub args: Seq<Seq<char>>,
}

impl View for Invocation {
    type V = InvocationView;

    open spec fn view(&self) -> InvocationView {
        InvocationView {
            program: self.program@,
            args: Seq::new(self.args@.len(), |i: int| self.args@[i]@),
        }
    }
}

/// The two tools that make a thumbnail: the first writes its image to its
/// standard output, the second reads it from its standard input.
#[derive(Clone, Debug, PartialEq, Eq)]
pub struct Pipeline {
    pub render: Invocation,
    pub crop: Invocation,
}

/// The call that renders a map of 256 by 256 pixels at zoom level 16 with the
/// coordinates at its centre and no attribution line, as a PNG image on
/// standard output.
pub open spec fn render_invocation(lat: Seq<char>, lon: Seq<char>) -> InvocationView {
    InvocationView {
        program: "create-static-map"@,
        args: seq![
            "-m"@,
            lat + ","@ + lon,
            "-z"@,
            "16"@,
            "--width"@,
            "256"@,
            "--height"@,
            "256"@,
            "--attribution"@,
            ""@,
            "--output"@,
            "/dev/stdout"@,
        ],
    }
}

/// The call that cuts the middle 128 by 128 pixels out of the PNG image on
/// standard input and writes them to `save_to`.
pub open spec fn crop_invocation(save_to: Seq<char>) -> InvocationView {
    InvocationView {
        program: "convert"@,
        args: seq![
            "png:-"@,
            "-gravity"@,
            "center"@,
            "-crop"@,
            "128x128+0+0"@,
            "+repage"@,
            save_to,
        ],
    }
}

/// The pipeline that makes the thumbnail for the coordinates with these
/// texts and leaves it in the file `save_to`.
pub fn make_thumbnail(lat: &str, lon: &str, save_to: &str) -> (pipeline: Pipeline)
    ensures
        pipeline.render@ == render_invocation(lat@, lon@),
        pipeline.crop@ == crop_invocation(save_to@),
{
    let mut centre = String::from_str(lat);
    centre.append(",");
    centre.append(lon);
    let mut render_args: Vec<String> = Vec::new();
    render_args.push(String::from_str("-m"));
    render_args.push(centre);
    render_args.push(String::from_str("-z"));
    render_args.push(String::from_str("16"));
    render_args.push(String::from_str("--width"));
    render_args.push(String::from_str("256"));
    render_args.push(String::from_str("--height"));
    render_args.push(String::from_str("256"));
    render_args.push(String::from_str("--attribution"));
    render_args.push(String::from_str(""));
    render_args.push(String::from_str("--output"));
    render_args.push(String::from_str("/dev/stdout"));
    let render = Invocation { program: String::from_str("create-static-map"), args: render_args };
    let mut crop_args: Vec<String> = Vec::new();
    crop_args.push(String::from_str("png:-"));
    crop_args.push(String::from_str("-gravity"));
    crop_args.push(String::from_str("center"));
    crop_args.push(String::from_str("-crop"));
    crop_args.push(String::from_str("128x128+0+0"));
    crop_args.push(String::from_str("+repage"));
    crop_args.push(String::from_str(save_to));
    let crop = Invocation { program: String::from_str("convert"), args: crop_args };
    assert(render@.args =~= render_invocation(lat@, lon@).args);
    assert(crop@.args =~= crop_invocation(save_to@).args);
    Pipeline { render, crop }
}

/// The position of the first of `stations` whose external id is `id`.
pub open spec fn first_with_external_id(stations: Seq<StationInfoObj<String>>, id: u128) -> Option<
    int,
> {
    if exists|i: int| 0 <= i < stations.len() && (#[trigger] stations[i]).external_id == id {
        Some(
            choose|i: int|
                {
                    &&& 0 <= i < stations.len()
                    &&& (#[trigger] stations[i]).external_id == id
                    &&& forall|j: int| 0 <= j < i ==> (#[trigger] stations[j]).external_id != id
                },
        )
    } else {
        None
    }
}

/// The external ids that the stations have.
pub open spec fn external_ids(stations: Seq<StationInfoObj<String>>) -> Set<u128> {
    Set::new(
        |id: u128|
            exists|i: int| 0 <= i < stations.len() && (#[trigger] stations[i]).external_id == id,
    )
}

/// One more station adds its external id to those of the stations so far.
proof fn lemma_external_ids_push(
    stations: Seq<StationInfoObj<String>>,
    station: StationInfoObj<String>,
)
    ensures
        external_ids(stations.push(station)) == external_ids(stations).insert(station.external_id),
{
    let longer = stations.push(station);
    assert forall|id: u128|
        external_ids(longer).contains(id) <==> external_ids(stations).insert(
            station.external_id,
        ).contains(id) by {
        if external_ids(stations).contains(id) {
            let i = choose|i: int|
                0 <= i < stations.len() && (#[trigger] stations[i]).external_id == id;
            assert(longer[i].external_id == id);
        }
        if id == station.external_id {
            assert(longer[stations.len() as int].external_id == id);
        }
        if external_ids(longer).contains(id) {
            let i = choose|i: int|
                0 <= i < longer.len() && (#[trigger] longer[i]).external_id == id;
            if i < stations.len() {
                assert(stations[i].external_id == id);
            }
        }
    }
    assert(external_ids(longer) =~= external_ids(stations).insert(station.external_id));
}

/// The stations that thumbnails are served for, with the set of their
/// external ids for a quick answer on an id that is not among them.
pub struct StationDirectory {
    stations: Vec<StationInfoObj<String>>,
    all_ids: HashSet<u128>,
}

impl View for StationDirectory {
    type V = Seq<StationInfoObj<String>>;

    /// The stations, in the order of the station information feed.
    closed spec fn view(&self) -> Seq<StationInfoObj<String>> {
        self.stations@
    }
}

impl StationDirectory {
    #[verifier::type_invariant]
    spec fn ids_match_stations(&self) -> bool {
        self.all_ids@ == external_ids(self.stations@)
    }

    /// A directory of the stations of the station information feed.
    pub fn new(stations: Vec<StationInfoObj<String>>) -> (directory: Self)
        ensures
            directory@ == stations@,
    {
        let mut all_ids: HashSet<u128> = HashSet::new();
        let mut idx: usize = 0;
        while idx < stations.len()
            invariant
                idx <= stations.len(),
                all_ids@ == external_ids(stations@.take(idx as int)),
            decreases stations.len() - idx,
        {
            all_ids.insert(stations[idx].external_id);
            proof {
                assert(stations@.take(idx + 1) =~= stations@.take(idx as int).push(
                    stations@[idx as int],
                ));
                lemma_external_ids_push(stations@.take(idx as int), stations@[idx as int]);
            }
            idx = idx + 1;
        }
        assert(stations@.take(idx as int) =~= stations@);
        Self { stations, all_ids }
    }

    /// The coordinates of the first station with this external id, if there
    /// is one.
    pub fn coordinates_of(&self, id: u128) -> (found: Option<(u32, u32)>)
        ensures
            found == match first_with_external_id(self@, id) {
                Some(i) => Some((self@[i].lat, self@[i].lon)),
                None => None,
            },
    {
        proof {
            use_type_invariant(self);
        }
        if !self.all_ids.contains(&id) {
            return None;
        }
        let mut idx: usize = 0;
        while idx < self.stations.len()
            invariant
                idx <= self.stations.len(),
                forall|j: int| 0 <= j < idx ==> (#[trigger] self.stations@[j]).external_id != id,
            decreases self.stations.len() - idx,
        {
            if self.stations[idx].external_id == id {
                assert(first_with_external_id(self@, id) == Some(idx as int));
                return Some((self.stations[idx].lat, self.stations[idx].lon));
            }
            idx = idx + 1;
        }
        None
    }
}

/// How far a request for a thumbnail has come.
#[derive(Clone, Copy, Debug, PartialEq, Eq, Structural)]
pub enum Stage {
    /// The cache file is being read under the shared lock.
    Checking,
    /// The pipeline is running under the exclusive lock.
    Rendering,
    /// The file that the pipeline wrote is being read.
    ReadingBack,
    /// The request has its response.
    Finished,
}

/// What came of the step that a request asked for.
#[derive(Clone, Debug, PartialEq, Eq)]
pub enum CacheEvent {
    /// The cache file was read; these are its bytes.
    Found(Vec<u8>),
    /// There is no cache file.
    Missing,
    /// The cache file could not be read: under the shared lock for another
    /// reason than its absence, after a run of the pipeline for any reason.
    ReadFailed,
    /// The pipeline ran and succeeded.
    Rendered,
    /// The pipeline failed.
    RenderFailed,
}

/// Why a thumbnail could not be served.
#[derive(Clone, Copy, Debug, PartialEq, Eq, Structural)]
pub enum CacheError {
    Filesystem,
    RenderPipeline,
}

/// The answer to a request for a thumbnail.
#[derive(Clone, Debug, PartialEq, Eq)]
pub enum ThumbnailResponse {
    /// No station has the id that was asked for.
    NotFound,
    /// The thumbnail, as the bytes of a PNG image.
    Png(Vec<u8>),
    /// The thumbnail could not be read or made.
    Failed(CacheError),
}

/// The next step of a request. The three steps that touch the cache carry
/// the coordinates whose thumbnail is wanted.
#[derive(Clone, Debug, PartialEq, Eq)]
pub enum CacheAction {
    /// Take the shared lock, read the cache file, release the lock.
    Check { lat: u32, lon: u32 },
    /// Take the exclusive lock, run the pipeline, release the lock.
    Render { lat: u32, lon: u32 },
    /// Read the cache file, without a lock. A read that fails, for whatever
    /// reason, is reported as `ReadFailed`.
    ReadBack { lat: u32, lon: u32 },
    /// Answer the request.
    Respond(ThumbnailResponse),
}

/// Whether `event` can follow the step that a request at `stage` asked for.
///
/// A read under the shared lock finds the file, finds none or fails; the
/// pipeline succeeds or fails; the read after a successful run finds the
/// file or fails. After a run that reported success a file that is not there
/// is a failed read like any other.
pub open spec fn stage_accepts(stage: Stage, event: CacheEvent) -> bool {
    match stage {
        Stage::Checking => event is Found || event is Missing || event is ReadFailed,
        Stage::Rendering => event is Rendered || event is RenderFailed,
        Stage::ReadingBack => event is Found || event is ReadFailed,
        Stage::Finished => false,
    }
}

/// The stage after `event` and the step to take then.
///
/// A file that is there is served at once. A file that is missing is
/// rendered, without a second look under the exclusive lock, and then read.
/// A read that fails otherwise, before or after the rendering, or a pipeline
/// that fails, ends the request with that failure: the request is answered
/// with an error, and no other request is touched.
///
/// This says what follows an event that the stage accepts; of any other
/// event it says nothing that is meant.
pub open spec fn respond_to(stage: Stage, lat: u32, lon: u32, event: CacheEvent) -> (
    Stage,
    CacheAction,
) {
    match (stage, event) {
        (Stage::Checking, CacheEvent::Missing) => (
            Stage::Rendering,
            CacheAction::Render { lat, lon },
        ),
        (Stage::Rendering, CacheEvent::Rendered) => (
            Stage::ReadingBack,
            CacheAction::ReadBack { lat, lon },
        ),
        (_, CacheEvent::Found(bytes)) => (
            Stage::Finished,
            CacheAction::Respond(ThumbnailResponse::Png(bytes)),
        ),
        (_, CacheEvent::RenderFailed) => (
            Stage::Finished,
            CacheAction::Respond(ThumbnailResponse::Failed(CacheError::RenderPipeline)),
        ),
        _ => (
            Stage::Finished,
            CacheAction::Respond(ThumbnailResponse::Failed(CacheError::Filesystem)),
        ),
    }
}

/// How a request for the thumbnail of the station with external id `id`
/// begins: with the answer that there is no such station, or with a look
/// into the cache for the station's coordinates.
pub open spec fn begin(stations: Seq<StationInfoObj<String>>, id: u128) -> (Stage, CacheAction) {
    match first_with_external_id(stations, id) {
        Some(i) => (
            Stage::Checking,
            CacheAction::Check { lat: stations[i].lat, lon: stations[i].lon },
        ),
        None => (Stage::Finished, CacheAction::Respond(ThumbnailResponse::NotFound)),
    }
}

/// One request for a station's thumbnail, from the lookup of the station to
/// the response.
pub struct ThumbnailRequest {
    stage: Stage,
    lat: u32,
    lon: u32,
}

impl ThumbnailRequest {
    /// How far the request has come.
    pub closed spec fn stage(&self) -> Stage {
        self.stage
    }

    /// The coordinates whose thumbnail is wanted. They mean nothing where the
    /// station was not found.
    pub closed spec fn coordinates(&self) -> (u32, u32) {
        (self.lat, self.lon)
    }

    /// Begins a request. For an id that no station has, the request is
    /// finished at once and its only step is the answer that nothing was
    /// found: the cache is not read and the pipeline is not run.
    pub fn new(directory: &StationDirectory, id: u128) -> (begun: (Self, CacheAction))
        ensures
            (begun.0.stage(), begun.1) == begin(directory@, id),
            begun.1 matches CacheAction::Check { lat, lon } ==> begun.0.coordinates() == (lat, lon),
    {
        match directory.coordinates_of(id) {
            Some((lat, lon)) => (
                Self { stage: Stage::Checking, lat, lon },
                CacheAction::Check { lat, lon },
            ),
            None => (
                Self { stage: Stage::Finished, lat: 0, lon: 0 },
                CacheAction::Respond(ThumbnailResponse::NotFound),
            ),
        }
    }

    /// Whether `event` can follow the step that this request asked for last.
    pub fn accepts(&self, event: &CacheEvent) -> (accepted: bool)
        ensures
            accepted == stage_accepts(self.stage(), *event),
    {
        match self.stage {
            Stage::Checking => match event {
                CacheEvent::Found(_) | CacheEvent::Missing | CacheEvent::ReadFailed => true,
                _ => false,
            },
            Stage::Rendering => match event {
                CacheEvent::Rendered | CacheEvent::RenderFailed => true,
                _ => false,
            },
            Stage::ReadingBack => match event {
                CacheEvent::Found(_) | CacheEvent::ReadFailed => true,
                _ => false,
            },
            Stage::Finished => false,
        }
    }

    /// Takes what came of the last step and says what to do next.
    pub fn step(&mut self, event: CacheEvent) -> (action: CacheAction)
        requires
            stage_accepts(old(self).stage(), event),
        ensures
            (final(self).stage(), action) == respond_to(
                old(self).stage(),
                old(self).coordinates().0,
                old(self).coordinates().1,
                event,
            ),
            final(self).coordinates() == old(self).coordinates(),
    {
        match event {
            CacheEvent::Missing => {
                self.stage = Stage::Rendering;
                CacheAction::Render { lat: self.lat, lon: self.lon }
            },
            CacheEvent::Rendered => {
                self.stage = Stage::ReadingBack;
                CacheAction::ReadBack { lat: self.lat, lon: self.lon }
            },
            CacheEvent::Found(bytes) => {
                self.stage = Stage::Finished;
                CacheAction::Respond(ThumbnailResponse::Png(bytes))
            },
            CacheEvent::RenderFailed => {
                self.stage = Stage::Finished;
                CacheAction::Respond(ThumbnailResponse::Failed(CacheError::RenderPipeline))
            },
            CacheEvent::ReadFailed => {
                self.stage = Stage::Finished;
                CacheAction::Respond(ThumbnailResponse::Failed(CacheError::Filesystem))
            },
        }
    }
}

/// What a request left behind: the cache files after it, how often it ran
/// the pipeline, and its response.
pub struct Served {
    pub files: Map<Seq<char>, Vec<u8>>,
    pub renders: nat,
    pub response: ThumbnailResponse,
}

/// What a read of the cache file `name` finds among `files`.
pub open spec fn read_event(files: Map<Seq<char>, Vec<u8>>, name: Seq<char>) -> CacheEvent {
    if files.contains_key(name) {
        CacheEvent::Found(files[name])
    } else {
        CacheEvent::Missing
    }
}

/// The course of one request for the thumbnail at `(lat, lon)`, kept under
/// `name`, against the cache files `files`, where every read succeeds and the
/// pipeline, if it is run, writes `image` or, where `image` is `None`, fails.
pub open spec fn serve(
    files: Map<Seq<char>, Vec<u8>>,
    name: Seq<char>,
    lat: u32,
    lon: u32,
    image: Option<Vec<u8>>,
) -> Served {
    let checked = respond_to(Stage::Checking, lat, lon, read_event(files, name));
    match checked.1 {
        CacheAction::Render { .. } => match image {
            Some(bytes) => {
                let written = files.insert(name, bytes);
                let rendered = respond_to(checked.0, lat, lon, CacheEvent::Rendered);
                let read = respond_to(rendered.0, lat, lon, read_event(written, name));
                Served { files: written, renders: 1, response: read.1->Respond_0 }
            },
            None => Served {
                files,
                renders: 1,
                response: respond_to(checked.0, lat, lon, CacheEvent::RenderFailed).1->Respond_0,
            },
        },
        CacheAction::Respond(response) => Served { files, renders: 0, response },
        _ => Served {
            files,
            renders: 0,
            response: ThumbnailResponse::Failed(CacheError::Filesystem),
        },
    }
}

/// Two requests for the same coordinates, one after the other, run the
/// pipeline once: the first finds no file, renders and serves what was
/// rendered; the second is served the same bytes from the file and renders
/// nothing, whatever the pipeline would have made then.
pub proof fn lemma_second_request_served_from_cache(
    files: Map<Seq<char>, Vec<u8>>,
    name: Seq<char>,
    lat: u32,
    lon: u32,
    image: Vec<u8>,
    later_image: Option<Vec<u8>>,
)
    requires
        !files.contains_key(name),
    ensures
        ({
            let first = serve(files, name, lat, lon, Some(image));
            let second = serve(first.files, name, lat, lon, later_image);
            &&& first.renders == 1
            &&& first.response == ThumbnailResponse::Png(image)
            &&& first.files == files.insert(name, image)
            &&& second.renders == 0
            &&& second.response == ThumbnailResponse::Png(image)
            &&& second.files == first.files
        }),
{
}

/// A request for coordinates whose file is there is served the file's bytes:
/// the pipeline is not run and the cache files stay as they are.
pub proof fn lemma_cached_thumbnail_is_served(
    files: Map<Seq<char>, Vec<u8>>,
    name: Seq<char>,
    lat: u32,
    lon: u32,
    image: Option<Vec<u8>>,
)
    requires
        files.contains_key(name),
    ensures
        serve(files, name, lat, lon, image) == (Served {
            files,
            renders: 0,
            response: ThumbnailResponse::Png(files[name]),
        }),
{
}

/// A request that finds no file, whose pipeline reports success and whose
/// read of the new file then fails, is answered with the failure of the
/// file system: each of the three events is accepted in its turn, and the
/// last one finishes the request.
pub proof fn lemma_failed_read_back_is_answered(lat: u32, lon: u32)
    ensures
        ({
            let missing = respond_to(Stage::Checking, lat, lon, CacheEvent::Missing);
            let rendered = respond_to(missing.0, lat, lon, CacheEvent::Rendered);
            let failed = respond_to(rendered.0, lat, lon, CacheEvent::ReadFailed);
            &&& stage_accepts(Stage::Checking, CacheEvent::Missing)
            &&& missing == (Stage::Rendering, CacheAction::Render { lat, lon })
            &&& stage_accepts(missing.0, CacheEvent::Rendered)
            &&& rendered == (Stage::ReadingBack, CacheAction::ReadBack { lat, lon })
            &&& stage_accepts(rendered.0, CacheEvent::ReadFailed)
            &&& failed == (
                Stage::Finished,
                CacheAction::Respond(ThumbnailResponse::Failed(CacheError::Filesystem)),
            )
        }),
{
}

/// Every event that a stage accepts leads to an answer or to the next step
/// of the same request; none is left without one. A request is finished
/// exactly when it is answered.
pub proof fn lemma_every_accepted_event_is_answered(
    stage: Stage,
    lat: u32,
    lon: u32,
    event: CacheEvent,
)
    requires
        stage_accepts(stage, event),
    ensures
        respond_to(stage, lat, lon, event).0 == Stage::Finished <==> respond_to(
            stage,
            lat,
            lon,
            event,
        ).1 is Respond,
        event is ReadFailed ==> respond_to(stage, lat, lon, event).1 == CacheAction::Respond(
            ThumbnailResponse::Failed(CacheError::Filesystem),
        ),
        event is RenderFailed ==> respond_to(stage, lat, lon, event).1 == CacheAction::Respond(
            ThumbnailResponse::Failed(CacheError::RenderPipeline),
        ),
{
}

/// A request whose pipeline fails leaves the cache files as they were.
pub proof fn lemma_failed_render_keeps_cache(
    files: Map<Seq<char>, Vec<u8>>,
    name: Seq<char>,
    lat: u32,
    lon: u32,
)
    ensures
        serve(files, name, lat, lon, None).files == files,
        !files.contains_key(name) ==> serve(files, name, lat, lon, None).response
            == ThumbnailResponse::Failed(CacheError::RenderPipeline),
{
}

/// A request for an id that no station has is answered at once that nothing
/// was found: it is finished before any step that reads the cache or runs
/// the pipeline, and a finished request accepts no event.
pub proof fn lemma_unregistered_is_not_found(stations: Seq<StationInfoObj<String>>, id: u128)
    requires
        !external_ids(stations).contains(id),
    ensures
        begin(stations, id) == (Stage::Finished, CacheAction::Respond(ThumbnailResponse::NotFound)),
        forall|event: CacheEvent| !stage_accepts(begin(stations, id).0, event),
{
}

} // verus!
