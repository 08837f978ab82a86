//! The binary-cache substituter's decision logic.
//!
//! The substituter serves Nix binary-cache objects from a cloud storage
//! bucket, falling back to another cache for missing objects, optionally
//! filling the bucket from the fallback and recording what was missing.
//! The network server around it only moves bytes; every decision — what a
//! storage outcome means, which headers a reply carries, whether to fall
//! back, record or fill — is taken here, over plain values.

use vstd::prelude::*;

verus! {

/// The server's configuration: the bucket to serve, the fallback cache's
/// base URL, whether to fill the bucket from the fallback, and where to
/// record missing objects.  An empty URL or filename switches the feature
/// off.
#[derive(Clone, Debug)]
pub struct AppState {
    pub bucket: String,
    pub fallback_url: String,
    pub fill_missing: bool,
    pub missing_objects_filename: String,
}

impl AppState {
    /// Build the server's state from its arguments: an absent fallback or
    /// record file becomes the empty string, switching the feature off.
    pub fn from_args(
        bucket: String,
        fallback: Option<String>,
        fill_missing: bool,
        missing_objects_filename: Option<String>,
    ) -> (r: AppState)
        ensures
            r.bucket@ == bucket@,
            r.fallback_url@ == match fallback {
                Some(u) => u@,
                None => Seq::<char>::empty(),
            },
            r.fill_missing == fill_missing,
            r.missing_objects_filename@ == match missing_objects_filename {
                Some(f) => f@,
                None => Seq::<char>::empty(),
            },
    {
        AppState {
            bucket,
            fallback_url: match fallback {
                Some(u) => u,
                None => String::new(),
            },
            fill_missing,
            missing_objects_filename: match missing_objects_filename {
                Some(f) => f,
                None => String::new(),
            },
        }
    }
}

/// The body served at the server's root.
pub fn root_text() -> (r: &'static str)
    ensures
        r@ == "This is gcs-substituter"@,
{
    "This is gcs-substituter"
}

/// The body served at `/nix-cache-info`.
pub fn nix_cache_info_text() -> (r: &'static str)
    ensures
        r@ == "StoreDir: /nix/store\nWantMassQuery: 1\nPriority: 40\n"@,
{
    "StoreDir: /nix/store\nWantMassQuery: 1\nPriority: 40\n"
}

/// The storage object named by a request path: the path without its
/// leading slash.
pub fn object_path_of(path: &String) -> (r: String)
    requires
        path@.len() >= 1,
    ensures
        r@ == path@.subrange(1, path@.len() as int),
{
    let s = path.as_str();
    s.substring_char(1, s.unicode_len()).to_owned()
}

/// The fallback cache's URL for an object.
pub fn fallback_object_url(fallback_url: &String, object_path: &String) -> (r: String)
    ensures
        r@ == fallback_url@ + "/"@ + object_path@,
{
    let mut out = fallback_url.clone();
    out.append("/");
    out.append(object_path.as_str());
    out
}

/// The decimal digits of a number.
pub open spec fn spec_decimal(n: nat) -> Seq<char>
    decreases n,
{
    if n < 10 {
        seq![spec_digit_char(n)]
    } else {
        spec_decimal(n / 10) + seq![spec_digit_char(n % 10)]
    }
}

/// The character of one decimal digit.
pub open spec fn spec_digit_char(d: nat) -> char {
    if d == 0 {
        '0'
    } else if d == 1 {
        '1'
    } else if d == 2 {
        '2'
    } else if d == 3 {
        '3'
    } else if d == 4 {
        '4'
    } else if d == 5 {
        '5'
    } else if d == 6 {
        '6'
    } else if d == 7 {
        '7'
    } else if d == 8 {
        '8'
    } else {
        '9'
    }
}

/// One decimal digit as text.
fn digit_str(d: u64) -> (r: &'static str)
    requires
        d < 10,
    ensures
        r@ == seq![spec_digit_char(d as nat)],
{
    proof {
        reveal_strlit("0");
        reveal_strlit("1");
        reveal_strlit("2");
        reveal_strlit("3");
        reveal_strlit("4");
        reveal_strlit("5");
        reveal_strlit("6");
        reveal_strlit("7");
        reveal_strlit("8");
        reveal_strlit("9");
    }
    let r = if d == 0 {
        "0"
    } else if d == 1 {
        "1"
    } else if d == 2 {
        "2"
    } else if d == 3 {
        "3"
    } else if d == 4 {
        "4"
    } else if d == 5 {
        "5"
    } else if d == 6 {
        "6"
    } else if d == 7 {
        "7"
    } else if d == 8 {
        "8"
    } else {
        "9"
    };
    proof {
        assert(r@ =~= seq![spec_digit_char(d as nat)]);
    }
    r
}

/// A number rendered in decimal.
pub fn u64_to_decimal(n: u64) -> (r: String)
    ensures
        r@ == spec_decimal(n as nat),
    decreases n,
{
    if n < 10 {
        digit_str(n).to_owned()
    } else {
        let mut s = u64_to_decimal(n / 10);
        s.append(digit_str(n % 10));
        s
    }
}

/// What a storage lookup produced: the object's metadata, a structured
/// error response with a status code, or some other failure.
pub enum GcsGetOutcome {
    Found { content_encoding: Option<String>, content_type: Option<String>, size: u64 },
    ErrorResponse { code: u16, message: String },
    Other { message: String },
}

/// What the server does with a storage lookup: stream the object with
/// these headers, handle a missing object, relay a status code, or fail.
pub enum GcsReply {
    Stream { headers: Vec<(String, String)> },
    HandleNotFound { message: String },
    Status { code: u16, message: String },
    Fail { message: String },
}

/// The response headers for a found object: its content encoding and type
/// when the store knows them, and its exact length.
pub fn object_headers(
    content_encoding: &Option<String>,
    content_type: &Option<String>,
    size: u64,
) -> (r: Vec<(String, String)>)
    ensures
        r@.map_values(|h: (String, String)| (h.0@, h.1@)) == spec_object_headers(
            crate::manifest::opt_string_view(content_encoding),
            crate::manifest::opt_string_view(content_type),
            size as nat,
        ),
{
    let mut out: Vec<(String, String)> = Vec::new();
    match content_encoding {
        Some(e) => {
            out.push((String::from_str("Content-Encoding"), e.clone()));
        },
        None => {},
    }
    match content_type {
        Some(t) => {
            out.push((String::from_str("Content-Type"), t.clone()));
        },
        None => {},
    }
    out.push((String::from_str("Content-Length"), u64_to_decimal(size)));
    proof {
        assert(out@.map_values(|h: (String, String)| (h.0@, h.1@)) =~= spec_object_headers(
            crate::manifest::opt_string_view(content_encoding),
            crate::manifest::opt_string_view(content_type),
            size as nat,
        ));
    }
    out
}

/// The headers a found object is served with.
pub open spec fn spec_object_headers(
    content_encoding: Option<Seq<char>>,
    content_type: Option<Seq<char>>,
    size: nat,
) -> Seq<(Seq<char>, Seq<char>)> {
    (match content_encoding {
        Some(e) => seq![("Content-Encoding"@, e)],
        None => Seq::empty(),
    }) + (match content_type {
        Some(t) => seq![("Content-Type"@, t)],
        None => Seq::empty(),
    }) + seq![("Content-Length"@, spec_decimal(size))]
}

/// Decide what to do with a storage lookup's outcome: stream a found
/// object with its headers, treat a 404 as a missing object, relay any
/// other structured status, and surface other failures.
pub fn classify_gcs_outcome(outcome: GcsGetOutcome) -> (r: GcsReply)
    ensures
        match outcome {
            GcsGetOutcome::Found { content_encoding, content_type, size } => r matches GcsReply::Stream { headers }
                && headers@.map_values(|h: (String, String)| (h.0@, h.1@)) == spec_object_headers(
                crate::manifest::opt_string_view(&content_encoding),
                crate::manifest::opt_string_view(&content_type),
                size as nat,
            ),
            GcsGetOutcome::ErrorResponse { code, message } => if code == 404 {
                r matches GcsReply::HandleNotFound { message: m } && m@ == message@
            } else {
                r matches GcsReply::Status { code: c, message: m } && c == code && m@ == message@
            },
            GcsGetOutcome::Other { message } => r matches GcsReply::Fail { message: m } && m@
                == message@,
        },
{
    match outcome {
        GcsGetOutcome::Found { content_encoding, content_type, size } => {
            let headers = object_headers(&content_encoding, &content_type, size);
            GcsReply::Stream { headers }
        },
        GcsGetOutcome::ErrorResponse { code, message } => {
            if code == 404 {
                GcsReply::HandleNotFound { message }
            } else {
                GcsReply::Status { code, message }
            }
        },
        GcsGetOutcome::Other { message } => GcsReply::Fail { message },
    }
}

/// What the server does about an object the bucket does not hold.
pub struct NotFoundPlan {
    /// Record the object's path in the missing-objects file.
    pub record_missing: bool,
    /// Ask the fallback cache; without one the reply is a plain 404.
    pub use_fallback: bool,
    /// While streaming the fallback's data, also upload it to the bucket.
    pub fill_missing: bool,
}

impl AppState {
    /// The plan for a missing object: record it when a record file is
    /// configured, fall back when a fallback URL is configured, and fill
    /// the bucket only when falling back and filling is on.
    pub fn not_found_plan(&self) -> (r: NotFoundPlan)
        ensures
            r.record_missing == (self.missing_objects_filename@.len() > 0),
            r.use_fallback == (self.fallback_url@.len() > 0),
            r.fill_missing == (self.fallback_url@.len() > 0 && self.fill_missing),
    {
        let use_fallback = self.fallback_url.as_str().unicode_len() > 0;
        NotFoundPlan {
            record_missing: self.missing_objects_filename.as_str().unicode_len() > 0,
            use_fallback,
            fill_missing: use_fallback && self.fill_missing,
        }
    }
}

/// The line recorded for one missing object.
pub fn missing_object_line(path: &String) -> (r: String)
    ensures
        r@ == path@ + "\n"@,
{
    let mut out = path.clone();
    out.append("\n");
    out
}

/// A header value, or the empty string when the header is absent.
pub fn header_value_or_empty(value: Option<String>) -> (r: String)
    ensures
        r@ == match value {
            Some(v) => v@,
            None => Seq::<char>::empty(),
        },
{
    match value {
        Some(v) => v,
        None => String::new(),
    }
}

/// The headers a fallback reply is served with: only the non-empty ones,
/// and the exact length when the fallback reported one.
pub fn fallback_headers(
    content_type: &String,
    content_encoding: &String,
    content_length: &Option<u64>,
) -> (r: Vec<(String, String)>)
    ensures
        r@.map_values(|h: (String, String)| (h.0@, h.1@)) == (if content_type@.len() > 0 {
            seq![("Content-Type"@, content_type@)]
        } else {
            Seq::<(Seq<char>, Seq<char>)>::empty()
        }) + (if content_encoding@.len() > 0 {
            seq![("Content-Encoding"@, content_encoding@)]
        } else {
            Seq::<(Seq<char>, Seq<char>)>::empty()
        }) + (match content_length {
            Some(n) => seq![("Content-Length"@, spec_decimal(*n as nat))],
            None => Seq::<(Seq<char>, Seq<char>)>::empty(),
        }),
{
    let mut out: Vec<(String, String)> = Vec::new();
    if content_type.as_str().unicode_len() > 0 {
        out.push((String::from_str("Content-Type"), content_type.clone()));
    }
    if content_encoding.as_str().unicode_len() > 0 {
        out.push((String::from_str("Content-Encoding"), content_encoding.clone()));
    }
    match content_length {
        Some(n) => {
            out.push((String::from_str("Content-Length"), u64_to_decimal(*n)));
        },
        None => {},
    }
    proof {
        assert(out@.map_values(|h: (String, String)| (h.0@, h.1@)) =~= (if content_type@.len()
            > 0 {
            seq![("Content-Type"@, content_type@)]
        } else {
            Seq::<(Seq<char>, Seq<char>)>::empty()
        }) + (if content_encoding@.len() > 0 {
            seq![("Content-Encoding"@, content_encoding@)]
        } else {
            Seq::<(Seq<char>, Seq<char>)>::empty()
        }) + (match content_length {
            Some(n) => seq![("Content-Length"@, spec_decimal(*n as nat))],
            None => Seq::<(Seq<char>, Seq<char>)>::empty(),
        }));
    }
    out
}

/// The media type an upload to the bucket declares: the fallback's
/// content type, or the octet-stream default when it reported none.
pub fn upload_media_type(content_type: &String) -> (r: String)
    ensures
        content_type@.len() > 0 ==> r@ == content_type@,
        content_type@.len() == 0 ==> r@ == "application/octet-stream"@,
{
    if content_type.as_str().unicode_len() == 0 {
        String::from_str("application/octet-stream")
    } else {
        content_type.clone()
    }
}

} // verus!
