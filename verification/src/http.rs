//! Bodies of the client's local HTTP API and of the service's actor API.
use vstd::prelude::*;

verus! {

/// A script to run, as posted to `/script`.
#[derive(Debug)]
pub struct ScriptRequest {
    pub script: String,
}

/// A message to show to the user, as posted to `/message`.
#[derive(Debug)]
pub struct MessageRequest {
    pub message: String,
}

/// A screenshot, Base64-encoded.
#[derive(Debug)]
pub struct ScreenshotResponse {
    pub result: String,
}

/// The standard Base64 alphabet (RFC 4648): `A-Z`, `a-z`, `0-9`, `+`, `/`.
pub open spec fn b64_digit(v: int) -> char {
    if v < 26 {
        (('A' as u32) + v) as char
    } else if v < 52 {
        (('a' as u32) + (v - 26)) as char
    } else if v < 62 {
        (('0' as u32) + (v - 52)) as char
    } else if v == 62 {
        '+'
    } else {
        '/'
    }
}

/// Standard Base64 with `=` padding (RFC 4648, section 4): every three
/// bytes become four characters; a final one or two bytes become four
/// characters ending in `==` or `=`.
pub open spec fn base64(s: Seq<u8>) -> Seq<char>
    decreases s.len(),
{
    if s.len() == 0 {
        Seq::empty()
    } else if s.len() == 1 {
        let a = s[0] as int;
        seq![b64_digit(a / 4), b64_digit((a % 4) * 16), '=', '=']
    } else if s.len() == 2 {
        let a = s[0] as int;
        let b = s[1] as int;
        seq![b64_digit(a / 4), b64_digit((a % 4) * 16 + b / 16), b64_digit((b % 16) * 4), '=']
    } else {
        let a = s[0] as int;
        let b = s[1] as int;
        let c = s[2] as int;
        seq![b64_digit(a / 4), b64_digit((a % 4) * 16 + b / 16), b64_digit((b % 16) * 4 + c / 64), b64_digit(c % 64)]
            + base64(s.subrange(3, s.len() as int))
    }
}

/// Whether the Base64 length of `n` bytes fits in a `usize`.
pub open spec fn base64_len_fits(n: int) -> bool {
    (n / 3) * 4 + (if n % 3 > 0 {
        4int
    } else {
        0int
    }) <= usize::MAX
}

/// Base64 text is four characters for every started group of three bytes,
/// and a group of three bytes keeps its 24 bits: the four characters'
/// 6-bit values, read in order, are the bytes' bits in order.
pub proof fn lemma_base64_shape(s: Seq<u8>)
    ensures
        base64(s).len() == 4 * ((s.len() + 2) / 3),
        s.len() >= 3 ==> base64(s).subrange(0, 4) == seq![
            b64_digit((s[0] as int * 65536 + s[1] as int * 256 + s[2] as int) / 262144),
            b64_digit((s[0] as int * 65536 + s[1] as int * 256 + s[2] as int) / 4096 % 64),
            b64_digit((s[0] as int * 65536 + s[1] as int * 256 + s[2] as int) / 64 % 64),
            b64_digit((s[0] as int * 65536 + s[1] as int * 256 + s[2] as int) % 64),
        ],
    decreases s.len(),
{
    if s.len() >= 3 {
        lemma_base64_shape(s.subrange(3, s.len() as int));
        let a = s[0] as int;
        let b = s[1] as int;
        let c = s[2] as int;
        let n = a * 65536 + b * 256 + c;
        assert(n / 262144 == a / 4 && n / 4096 % 64 == (a % 4) * 16 + b / 16 && n / 64 % 64 == (b % 16) * 4 + c
            / 64 && n % 64 == c % 64) by (nonlinear_arith)
            requires
                0 <= a < 256,
                0 <= b < 256,
                0 <= c < 256,
                n == a * 65536 + b * 256 + c,
        ;
        let head = seq![b64_digit(a / 4), b64_digit((a % 4) * 16 + b / 16), b64_digit((b % 16) * 4 + c / 64), b64_digit(c % 64)];
        assert(base64(s) == head + base64(s.subrange(3, s.len() as int)));
        assert(base64(s).subrange(0, 4) =~= head);
    }
}

/// Whether `n` bytes can be encoded: their Base64 length fits in a `usize`.
pub fn base64_fits(n: usize) -> (r: bool)
    ensures
        r == base64_len_fits(n as int),
{
    let q = n / 3;
    let pad: usize = if n % 3 > 0 {
        4
    } else {
        0
    };
    if q > (usize::MAX - pad) / 4 {
        assert(q * 4 + pad > usize::MAX) by (nonlinear_arith)
            requires
                q > (usize::MAX - pad) / 4,
                pad <= 4,
        ;
        false
    } else {
        assert(q * 4 + pad <= usize::MAX) by (nonlinear_arith)
            requires
                q <= (usize::MAX - pad) / 4,
                pad <= 4,
        ;
        true
    }
}

/// Calls `base64::Engine::encode` on the `STANDARD` engine: standard
/// alphabet with padding. The crate panics when the encoded length does not
/// fit in a `usize`, so such inputs are excluded.
#[verifier::external_body]
fn base64_encode(data: &[u8]) -> (r: String)
    requires
        base64_len_fits(data@.len() as int),
    ensures
        r@ == base64(data@),
{
    base64::Engine::encode(&base64::engine::general_purpose::STANDARD, data)
}

/// The screenshot response: the captured image in Base64, or an empty
/// result when no image could be taken.
pub fn screenshot_response(data: Option<Vec<u8>>) -> (r: ScreenshotResponse)
    requires
        data is Some ==> base64_len_fits(data->0@.len() as int),
    ensures
        r.result@ == match data {
            Some(d) => base64(d@),
            None => Seq::empty(),
        },
{
    match data {
        Some(d) => ScreenshotResponse { result: base64_encode(d.as_slice()) },
        None => {
            let empty: Vec<u8> = Vec::new();
            ScreenshotResponse { result: base64_encode(empty.as_slice()) }
        },
    }
}

/// The body of the actor API's answers: a result or an error message.
#[derive(Debug)]
pub struct ApiResponse<T> {
    pub result: Option<T>,
    pub error: Option<String>,
}

/// A successful answer.
pub fn ok<T>(result: T) -> (r: ApiResponse<T>)
    ensures
        r.result == Some(result),
        r.error is None,
{
    ApiResponse { result: Some(result), error: None }
}

/// A failed answer carrying `msg`.
pub fn err<T>(msg: &str) -> (r: ApiResponse<T>)
    ensures
        r.result is None,
        r.error is Some && r.error->0@ == msg@,
{
    ApiResponse { result: None, error: Some(String::from_str(msg)) }
}

/// The actor API's information page: `<h1>UDS Actor <version>.<build></h1>`.
pub fn information_page(version: &str, build: &str) -> (r: String)
    ensures
        r@ == "<h1>UDS Actor "@ + version@ + "."@ + build@ + "</h1>"@,
{
    let mut r = String::from_str("<h1>UDS Actor ");
    r.append(version);
    r.append(".");
    r.append(build);
    r.append("</h1>");
    r
}

/// HTTP methods of the actor API.
#[derive(Clone, Copy, Debug, PartialEq, Eq, Structural)]
pub enum Method {
    Get,
    Post,
}

/// What an actor API route does.
#[derive(Clone, Copy, Debug, PartialEq, Eq, Structural)]
pub enum Endpoint {
    Screenshot,
    Uuid,
    Logout,
    Message,
    Script,
    PreConnect,
    Information,
}

/// The actor API's routes: the secret-guarded actions (pre-connect under
/// both the lower-case and the camel-case spelling the brokers use) and the
/// information page at the root.
pub open spec fn actor_routes_spec() -> Seq<(Method, Seq<char>, Endpoint)> {
    seq![
        (Method::Get, "/actor/{secret}/screenshot"@, Endpoint::Screenshot),
        (Method::Get, "/actor/{secret}/uuid"@, Endpoint::Uuid),
        (Method::Post, "/actor/{secret}/logout"@, Endpoint::Logout),
        (Method::Post, "/actor/{secret}/message"@, Endpoint::Message),
        (Method::Post, "/actor/{secret}/script"@, Endpoint::Script),
        (Method::Post, "/actor/{secret}/preconnect"@, Endpoint::PreConnect),
        (Method::Post, "/actor/{secret}/preConnect"@, Endpoint::PreConnect),
        (Method::Get, "/"@, Endpoint::Information),
    ]
}

/// Each path of the actor API is served by the endpoint it names, with the
/// method the broker uses: the table holds these eight routes and nothing
/// else (eight entries, each of the eight present).
pub proof fn lemma_routes_reach_their_endpoints()
    ensures
        actor_routes_spec().len() == 8,
        exists|i: int|
            0 <= i < 8 && #[trigger] actor_routes_spec()[i] == (Method::Get, "/actor/{secret}/screenshot"@, Endpoint::Screenshot),
        exists|i: int| 0 <= i < 8 && #[trigger] actor_routes_spec()[i] == (Method::Get, "/actor/{secret}/uuid"@, Endpoint::Uuid),
        exists|i: int|
            0 <= i < 8 && #[trigger] actor_routes_spec()[i] == (Method::Post, "/actor/{secret}/logout"@, Endpoint::Logout),
        exists|i: int|
            0 <= i < 8 && #[trigger] actor_routes_spec()[i] == (Method::Post, "/actor/{secret}/message"@, Endpoint::Message),
        exists|i: int|
            0 <= i < 8 && #[trigger] actor_routes_spec()[i] == (Method::Post, "/actor/{secret}/script"@, Endpoint::Script),
        exists|i: int|
            0 <= i < 8 && #[trigger] actor_routes_spec()[i] == (
                Method::Post,
                "/actor/{secret}/preconnect"@,
                Endpoint::PreConnect,
            ),
        exists|i: int|
            0 <= i < 8 && #[trigger] actor_routes_spec()[i] == (
                Method::Post,
                "/actor/{secret}/preConnect"@,
                Endpoint::PreConnect,
            ),
        exists|i: int| 0 <= i < 8 && #[trigger] actor_routes_spec()[i] == (Method::Get, "/"@, Endpoint::Information),
{
    let t = actor_routes_spec();
    assert(t[0] == (Method::Get, "/actor/{secret}/screenshot"@, Endpoint::Screenshot));
    assert(t[1] == (Method::Get, "/actor/{secret}/uuid"@, Endpoint::Uuid));
    assert(t[2] == (Method::Post, "/actor/{secret}/logout"@, Endpoint::Logout));
    assert(t[3] == (Method::Post, "/actor/{secret}/message"@, Endpoint::Message));
    assert(t[4] == (Method::Post, "/actor/{secret}/script"@, Endpoint::Script));
    assert(t[5] == (Method::Post, "/actor/{secret}/preconnect"@, Endpoint::PreConnect));
    assert(t[6] == (Method::Post, "/actor/{secret}/preConnect"@, Endpoint::PreConnect));
    assert(t[7] == (Method::Get, "/"@, Endpoint::Information));
}

/// Lists the actor API's routes.
pub fn actor_routes() -> (r: Vec<(Method, &'static str, Endpoint)>)
    ensures
        r@.len() == actor_routes_spec().len(),
        forall|i: int|
            0 <= i < r@.len() ==> (#[trigger] r@[i]).0 == actor_routes_spec()[i].0 && r@[i].1@
                == actor_routes_spec()[i].1 && r@[i].2 == actor_routes_spec()[i].2,
{
    let r = vec![
        (Method::Get, "/actor/{secret}/screenshot", Endpoint::Screenshot),
        (Method::Get, "/actor/{secret}/uuid", Endpoint::Uuid),
        (Method::Post, "/actor/{secret}/logout", Endpoint::Logout),
        (Method::Post, "/actor/{secret}/message", Endpoint::Message),
        (Method::Post, "/actor/{secret}/script", Endpoint::Script),
        (Method::Post, "/actor/{secret}/preconnect", Endpoint::PreConnect),
        (Method::Post, "/actor/{secret}/preConnect", Endpoint::PreConnect),
        (Method::Get, "/", Endpoint::Information),
    ];
    r
}

/// How long the actor API waits for the client's answer, in seconds: 5 for
/// a screenshot, 2 for the session id; other requests are not waited for.
pub fn response_timeout_secs(endpoint: Endpoint) -> (r: Option<u64>)
    ensures
        r == match endpoint {
            Endpoint::Screenshot => Some(5u64),
            Endpoint::Uuid => Some(2u64),
            _ => None::<u64>,
        },
{
    match endpoint {
        Endpoint::Screenshot => Some(5),
        Endpoint::Uuid => Some(2),
        _ => None,
    }
}

} // verus!
