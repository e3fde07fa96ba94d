use apple_sdk::Platform;
use std::str::FromStr;
use vstd::prelude::*;
use vstd::utf8::encode_utf8;

verus! {

/// apple_sdk's platform identifier, carried through without looking inside.
#[verifier::external_type_specification]
#[verifier::external_body]
pub struct ExPlatform(apple_sdk::Platform);

/// apple_sdk's error, passed on without looking inside.
#[verifier::external_type_specification]
#[verifier::external_body]
pub struct ExAppleSdkError(apple_sdk::Error);

/// std's I/O error, held by the toolchain-locator variant of the error type.
#[verifier::external_type_specification]
#[verifier::external_body]
pub struct ExIoError(std::io::Error);

/// Why no SDK path could be produced.
#[non_exhaustive]
#[derive(Debug)]
pub enum SdkPathError {
    /// A failure reported by `apple_sdk` while parsing or searching, passed on as it came.
    AppleSdkError(apple_sdk::Error),
    /// The search succeeded and found no SDK.
    AppleSdkNotFound,
    /// The given path does not end in `.sdk`, or does not exist.
    InvalidPath(String),
    /// Running the toolchain locator failed. None of the routes here produce it.
    XcrunError(std::io::Error),
}

/// A filesystem location taken to be an SDK bundle when it was made: either
/// the first SDK that discovery reported, or a path ending in `.sdk` that
/// existed when it was checked. Nothing is kept true after that.
#[derive(Debug, Clone)]
pub struct SdkPath {
    path: String,
}

impl View for SdkPath {
    type V = Seq<char>;

    /// The text of the wrapped path.
    closed spec fn view(&self) -> Seq<char> {
        self.path@
    }
}

impl SdkPath {
    /// The wrapped path, as it was given or found.
    pub fn path(&self) -> (r: &str)
        ensures
            r@ == self@,
    {
        self.path.as_str()
    }
}

/// The UTF-8 bytes of `.sdk`.
pub open spec fn sdk_suffix() -> Seq<u8> {
    seq![0x2eu8, 0x73u8, 0x64u8, 0x6bu8]
}

/// Whether the UTF-8 encoding of `text` ends with the bytes of `.sdk`, which
/// is how a `str` suffix is matched.
pub open spec fn ends_in_sdk(text: Seq<char>) -> bool {
    let b = encode_utf8(text);
    &&& b.len() >= 4
    &&& b.subrange(b.len() - 4, b.len() as int) == sdk_suffix()
}

/// What the raw-path route yields for `path`, given whether it exists: the
/// path itself when it ends in `.sdk` and exists, nothing otherwise.
pub open spec fn checked_path(path: Seq<char>, exists: bool) -> Option<Seq<char>> {
    if ends_in_sdk(path) && exists {
        Some(path)
    } else {
        None
    }
}

fn has_sdk_suffix(text: &str) -> (r: bool)
    ensures
        r == ends_in_sdk(text@),
{
    let b = text.as_bytes();
    let n = b.len();
    if n < 4 {
        return false;
    }
    let r = b[n - 4] == 0x2eu8 && b[n - 3] == 0x73u8 && b[n - 2] == 0x64u8 && b[n - 1] == 0x6bu8;
    assert(r ==> b@.subrange(n - 4, n as int) =~= sdk_suffix());
    assert(b@.subrange(n - 4, n as int) == sdk_suffix() ==> r) by {
        if b@.subrange(n - 4, n as int) == sdk_suffix() {
            assert(b@.subrange(n - 4, n as int)[0] == b@[n - 4]);
            assert(b@.subrange(n - 4, n as int)[1] == b@[n - 3]);
            assert(b@.subrange(n - 4, n as int)[2] == b@[n - 2]);
            assert(b@.subrange(n - 4, n as int)[3] == b@[n - 1]);
        }
    }
    r
}

/// Relies on std::path::Path::exists: whether the path names something on
/// disk at the time of the call. Nothing is stated, as that depends on the disk.
#[verifier::external_body]
fn path_exists(path: &str) -> (r: bool) {
    std::path::Path::new(path).exists()
}

/// Decides the raw-path route once the existence of `path` is known: the path
/// is kept, unchanged, when it ends in `.sdk` and `exists` holds; otherwise
/// the error carries the path.
pub fn sdk_path_checked(path: String, exists: bool) -> (r: Result<SdkPath, SdkPathError>)
    ensures
        match checked_path(path@, exists) {
            Some(p) => r is Ok && r->Ok_0@ == p,
            None => r == Err::<SdkPath, SdkPathError>(SdkPathError::InvalidPath(path)),
        },
{
    if has_sdk_suffix(path.as_str()) && exists {
        Ok(SdkPath { path })
    } else {
        Err(SdkPathError::InvalidPath(path))
    }
}

/// Resolves a raw path: it must end in `.sdk` and exist. The existence check
/// is made only for a path with that suffix.
pub fn sdk_path_from_path(path: String) -> (r: Result<SdkPath, SdkPathError>)
    ensures
        !ends_in_sdk(path@) ==> r == Err::<SdkPath, SdkPathError>(
            SdkPathError::InvalidPath(path),
        ),
        ends_in_sdk(path@) ==> (r is Ok && r->Ok_0@ == path@) || r == Err::<
            SdkPath,
            SdkPathError,
        >(SdkPathError::InvalidPath(path)),
{
    if !has_sdk_suffix(path.as_str()) {
        return Err(SdkPathError::InvalidPath(path));
    }
    let exists = path_exists(path.as_str());
    sdk_path_checked(path, exists)
}

/// What the platform route yields for the paths that a search reported, in
/// their order: the first of them, nothing when there is none.
pub open spec fn first_found(found: Seq<Seq<char>>) -> Option<Seq<char>> {
    if found.len() > 0 {
        Some(found[0])
    } else {
        None
    }
}

/// The texts of the paths in `paths`, in order.
pub open spec fn path_texts(paths: Seq<String>) -> Seq<Seq<char>> {
    paths.map_values(|p: String| p@)
}

/// Decides the platform route once the search has answered: its failure is
/// passed on, an empty answer is `AppleSdkNotFound`, and otherwise the first
/// path reported is kept unchanged.
pub fn sdk_path_from_search(found: Result<Vec<String>, apple_sdk::Error>) -> (r: Result<
    SdkPath,
    SdkPathError,
>)
    ensures
        match found {
            Err(e) => r == Err::<SdkPath, SdkPathError>(SdkPathError::AppleSdkError(e)),
            Ok(paths) => match first_found(path_texts(paths@)) {
                Some(p) => r is Ok && r->Ok_0@ == p,
                None => r == Err::<SdkPath, SdkPathError>(SdkPathError::AppleSdkNotFound),
            },
        },
{
    match found {
        Err(e) => Err(SdkPathError::AppleSdkError(e)),
        Ok(mut paths) => {
            if paths.len() == 0 {
                Err(SdkPathError::AppleSdkNotFound)
            } else {
                let first = paths.swap_remove(0);
                Ok(SdkPath { path: first })
            }
        },
    }
}

/// The platform that apple_sdk parses from `name`: it depends on the name alone.
pub uninterp spec fn platform_named(name: Seq<char>) -> Platform;

/// Relies on <apple_sdk::Platform as FromStr>::from_str, which matches the
/// name without regard to ASCII case and maps a name it does not know to
/// Platform::Unknown, so that it never fails and its platform depends on the
/// name alone.
#[verifier::external_body]
fn parse_platform(name: &str) -> (r: Result<Platform, apple_sdk::Error>)
    ensures
        r is Ok,
        r->Ok_0 == platform_named(name@),
{
    Platform::from_str(name)
}

/// Continues the name route once the name has been parsed: a parse failure is
/// passed on as `AppleSdkError`, and a platform is kept as it is.
pub fn platform_from_parsed(parsed: Result<Platform, apple_sdk::Error>) -> (r: Result<
    Platform,
    SdkPathError,
>)
    ensures
        match parsed {
            Err(e) => r == Err::<Platform, SdkPathError>(SdkPathError::AppleSdkError(e)),
            Ok(platform) => r == Ok::<Platform, SdkPathError>(platform),
        },
{
    match parsed {
        Err(e) => Err(SdkPathError::AppleSdkError(e)),
        Ok(platform) => Ok(platform),
    }
}

/// Parses a platform name, the first step of the name route. Every name
/// parses (one not known is an unknown platform), so the result is the
/// platform of that name.
pub fn platform_from_name(name: &str) -> (r: Result<Platform, SdkPathError>)
    ensures
        r is Ok,
        r->Ok_0 == platform_named(name@),
{
    let parsed = parse_platform(name);
    platform_from_parsed(parsed)
}

/// A path accepted by the raw-path route is the given text, unchanged, and
/// ends in `.sdk`; one accepted by the platform route is the first path that
/// the search reported, unchanged.
pub proof fn lemma_accepted_path_unchanged(path: Seq<char>, exists: bool, found: Seq<Seq<char>>)
    ensures
        checked_path(path, exists) is Some ==> checked_path(path, exists)->Some_0 == path
            && ends_in_sdk(path),
        first_found(found) is Some ==> found.len() > 0 && first_found(found)->Some_0 == found[0],
{
}

} // verus!
