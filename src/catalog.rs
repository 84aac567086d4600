//! The capability catalog: the (graphics API, codec) pairs a backend offers
//! for encode and for decode on a given platform.
use vstd::prelude::*;

verus! {

/// A platform graphics or compute API usable for hardware acceleration.
#[derive(Clone, Copy, Debug, PartialEq, Eq, Structural)]
pub enum Api {
    Dx11,
    OpenCl,
    Vulkan,
}

/// A compressed video format.
#[derive(Clone, Copy, Debug, PartialEq, Eq, Structural)]
pub enum DataFormat {
    H264,
    H265,
}

/// The operating-system family the library runs on; it decides which
/// graphics APIs are registered in the catalog.
#[derive(Clone, Copy, Debug, PartialEq, Eq, Structural)]
pub enum Platform {
    Windows,
    Linux,
    Other,
}

/// One usable (graphics API, codec) pair for encoding.
#[derive(Clone, Copy, Debug, PartialEq, Eq, Structural)]
pub struct InnerEncodeContext {
    pub api: Api,
    pub format: DataFormat,
}

/// One usable (graphics API, codec) pair for decoding.
#[derive(Clone, Copy, Debug, PartialEq, Eq, Structural)]
pub struct InnerDecodeContext {
    pub api: Api,
    pub data_format: DataFormat,
}

/// The graphics APIs registered for a platform, in device-list order.
pub open spec fn platform_apis(p: Platform) -> Seq<Api> {
    match p {
        Platform::Windows => seq![Api::Dx11],
        Platform::Linux => seq![Api::OpenCl, Api::Vulkan],
        Platform::Other => seq![],
    }
}

/// The fixed codec list, in codec-list order.
pub open spec fn supported_codecs() -> Seq<DataFormat> {
    seq![DataFormat::H264, DataFormat::H265]
}

/// The cross product of `apis` and `codecs`, API-major: entry `k` pairs
/// API `k / |codecs|` with codec `k % |codecs|`.
pub open spec fn cross(apis: Seq<Api>, codecs: Seq<DataFormat>) -> Seq<(Api, DataFormat)> {
    Seq::new(
        apis.len() * codecs.len(),
        |k: int| (apis[k / codecs.len() as int], codecs[k % codecs.len() as int]),
    )
}

/// The pairs the catalog offers on `p` when the driver probe returned `probe`:
/// none unless the probe returned zero, else every registered API with every codec.
pub open spec fn catalog(p: Platform, probe: i32) -> Seq<(Api, DataFormat)> {
    if probe != 0 {
        seq![]
    } else {
        cross(platform_apis(p), supported_codecs())
    }
}

pub open spec fn encode_pair(c: InnerEncodeContext) -> (Api, DataFormat) {
    (c.api, c.format)
}

pub open spec fn decode_pair(c: InnerDecodeContext) -> (Api, DataFormat) {
    (c.api, c.data_format)
}

/// The graphics APIs registered for `p`.
pub fn platform_api_list(p: Platform) -> (r: Vec<Api>)
    ensures
        r@ == platform_apis(p),
{
    let r = match p {
        Platform::Windows => vec![Api::Dx11],
        Platform::Linux => vec![Api::OpenCl, Api::Vulkan],
        Platform::Other => Vec::new(),
    };
    assert(r@ =~= platform_apis(p));
    r
}

/// The codecs every backend registers.
pub fn codec_list() -> (r: Vec<DataFormat>)
    ensures
        r@ == supported_codecs(),
{
    let r = vec![DataFormat::H264, DataFormat::H265];
    assert(r@ =~= supported_codecs());
    r
}

/// The pairs offered on `platform` when the driver-support probe returned
/// `probe` (zero means supported), in device-list order by codec-list order.
pub fn capability_pairs(platform: Platform, probe: i32) -> (r: Vec<(Api, DataFormat)>)
    ensures
        r@ == catalog(platform, probe),
{
    if probe != 0 {
        let v: Vec<(Api, DataFormat)> = Vec::new();
        assert(v@ =~= catalog(platform, probe));
        return v;
    }
    let devices = platform_api_list(platform);
    let codecs = codec_list();
    let ghost want = cross(devices@, codecs@);
    assert(want.len() == 2 * devices@.len()) by (nonlinear_arith)
        requires
            want.len() == devices@.len() * codecs@.len(),
            codecs@.len() == 2,
    ;
    let mut v: Vec<(Api, DataFormat)> = Vec::new();
    let mut i: usize = 0;
    while i < devices.len()
        invariant
            i <= devices@.len(),
            devices@.len() <= 2,
            codecs@ == supported_codecs(),
            want == cross(devices@, codecs@),
            want.len() == 2 * devices@.len(),
            v@.len() == 2 * i,
            forall|k: int| 0 <= k < v@.len() ==> #[trigger] v@[k] == want[k],
        decreases devices@.len() - i,
    {
        let mut j: usize = 0;
        while j < codecs.len()
            invariant
                i < devices@.len(),
                devices@.len() <= 2,
                j <= codecs@.len(),
                codecs@ == supported_codecs(),
                want == cross(devices@, codecs@),
                want.len() == 2 * devices@.len(),
                v@.len() == 2 * i + j,
                forall|k: int| 0 <= k < v@.len() ==> #[trigger] v@[k] == want[k],
            decreases codecs@.len() - j,
        {
            let ghost k = 2 * i + j;
            assert(k / 2 == i && k % 2 == j);
            let c = (devices[i], codecs[j]);
            assert(c == want[k]);
            v.push(c);
            assert(v@[k] == c);
            j += 1;
        }
        i += 1;
    }
    assert(v@ =~= want);
    v
}

/// The encode pairs offered on `platform` when the driver-support probe
/// returned `probe` (zero means supported).
pub fn possible_support_encoders(platform: Platform, probe: i32) -> (r: Vec<InnerEncodeContext>)
    ensures
        r@.len() == catalog(platform, probe).len(),
        forall|k: int| 0 <= k < r@.len() ==> encode_pair(#[trigger] r@[k]) == catalog(platform, probe)[k],
{
    let pairs = capability_pairs(platform, probe);
    let mut v: Vec<InnerEncodeContext> = Vec::new();
    for i in 0..pairs.len()
        invariant
            pairs@ == catalog(platform, probe),
            v@.len() == i,
            forall|k: int| 0 <= k < v@.len() ==> encode_pair(#[trigger] v@[k]) == pairs@[k],
    {
        let (api, format) = pairs[i];
        v.push(InnerEncodeContext { api, format });
    }
    v
}

/// The decode pairs offered on `platform` when the driver-support probe
/// returned `probe` (zero means supported).
pub fn possible_support_decoders(platform: Platform, probe: i32) -> (r: Vec<InnerDecodeContext>)
    ensures
        r@.len() == catalog(platform, probe).len(),
        forall|k: int| 0 <= k < r@.len() ==> decode_pair(#[trigger] r@[k]) == catalog(platform, probe)[k],
{
    let pairs = capability_pairs(platform, probe);
    let mut v: Vec<InnerDecodeContext> = Vec::new();
    for i in 0..pairs.len()
        invariant
            pairs@ == catalog(platform, probe),
            v@.len() == i,
            forall|k: int| 0 <= k < v@.len() ==> decode_pair(#[trigger] v@[k]) == pairs@[k],
    {
        let (api, data_format) = pairs[i];
        v.push(InnerDecodeContext { api, data_format });
    }
    v
}

/// A failed driver-support probe leaves the catalog empty, whatever the platform.
pub proof fn lemma_unsupported_is_empty(p: Platform, probe: i32)
    requires
        probe != 0,
    ensures
        catalog(p, probe).len() == 0,
{
}

/// When the probe succeeds, the catalog holds exactly the pairs of a registered
/// API with a supported codec, each once.
pub proof fn lemma_catalog_is_cross_product(p: Platform, probe: i32)
    requires
        probe == 0,
    ensures
        forall|a: Api, f: DataFormat|
            #[trigger] catalog(p, probe).contains((a, f)) <==> platform_apis(p).contains(a)
                && supported_codecs().contains(f),
        catalog(p, probe).no_duplicates(),
        catalog(p, probe).len() == platform_apis(p).len() * supported_codecs().len(),
{
    let apis = platform_apis(p);
    let codecs = supported_codecs();
    let c = catalog(p, probe);
    assert(codecs.len() == 2);
    assert(c.len() == 2 * apis.len()) by (nonlinear_arith)
        requires
            c.len() == apis.len() * codecs.len(),
            codecs.len() == 2,
    ;
    assert(apis.no_duplicates());
    assert forall|a: Api, f: DataFormat|
        #[trigger] c.contains((a, f)) <==> apis.contains(a) && codecs.contains(f) by {
        if c.contains((a, f)) {
            let k = choose|k: int| 0 <= k < c.len() && c[k] == (a, f);
            assert(apis[k / 2] == a && 0 <= k / 2 < apis.len());
            assert(codecs[k % 2] == f);
        }
        if apis.contains(a) && codecs.contains(f) {
            let x = choose|x: int| 0 <= x < apis.len() && apis[x] == a;
            let y = choose|y: int| 0 <= y < codecs.len() && codecs[y] == f;
            let k = 2 * x + y;
            assert(k / 2 == x && k % 2 == y);
            assert(c[k] == (a, f));
        }
    }
    assert forall|k1: int, k2: int|
        0 <= k1 < c.len() && 0 <= k2 < c.len() && k1 != k2 implies c[k1] != c[k2] by {
        assert(k1 / 2 != k2 / 2 || k1 % 2 != k2 % 2);
    }
}

/// Two catalog queries made under the same platform and probe result return
/// the same entries, in the same order and multiplicity: for encode entries
/// read through `encode_pair`, for decode entries through `decode_pair`, or
/// any other view that tells entries apart by their pair.
pub proof fn lemma_queries_agree<T>(
    p: Platform,
    probe: i32,
    pair: spec_fn(T) -> (Api, DataFormat),
    r1: Seq<T>,
    r2: Seq<T>,
)
    requires
        forall|a: T, b: T| #[trigger] pair(a) == #[trigger] pair(b) ==> a == b,
        r1.len() == catalog(p, probe).len(),
        forall|k: int| 0 <= k < r1.len() ==> pair(#[trigger] r1[k]) == catalog(p, probe)[k],
        r2.len() == catalog(p, probe).len(),
        forall|k: int| 0 <= k < r2.len() ==> pair(#[trigger] r2[k]) == catalog(p, probe)[k],
    ensures
        r1 == r2,
{
    assert forall|k: int| 0 <= k < r1.len() implies r1[k] == r2[k] by {
        assert(pair(r1[k]) == catalog(p, probe)[k]);
        assert(pair(r2[k]) == catalog(p, probe)[k]);
    }
    assert(r1 =~= r2);
}

/// Encode and decode entries are told apart by their pairs.
pub proof fn lemma_pairs_identify_entries()
    ensures
        forall|a: InnerEncodeContext, b: InnerEncodeContext|
            #[trigger] encode_pair(a) == #[trigger] encode_pair(b) ==> a == b,
        forall|a: InnerDecodeContext, b: InnerDecodeContext|
            #[trigger] decode_pair(a) == #[trigger] decode_pair(b) ==> a == b,
{
}

} // verus!
