//! The user service: which providers a search lists, the lookups that must
//! find a profile, and where an uploaded avatar is stored.

use vstd::prelude::*;
use crate::errors::AppError;
use crate::ids::{uuid_text, uuid_to_string};
use crate::text::{join2, join3, owned, str_eq};

verus! {

/// A search for providers.
pub struct ProviderQuery {
    pub service_type: Option<String>,
    pub search: Option<String>,
}

/// Which profiles a provider search lists, newest first.
pub enum ProviderFilter {
    /// Profiles offering exactly this service type.
    ByServiceType(String),
    /// Profiles whose first name, last name or service type matches this
    /// case-insensitive `LIKE` pattern.
    Search(String),
    /// Every profile that offers some service.
    AllProviders,
}

/// The filter for a provider search: the service type where one is given,
/// else the search text wrapped in `%` wildcards, else every provider.
pub fn list_providers(service_type: Option<String>, search: Option<String>) -> (f: ProviderFilter)
    ensures
        match service_type {
            Some(st) => f == ProviderFilter::ByServiceType(st),
            None => match search {
                Some(s) => f matches ProviderFilter::Search(p) && p@ == "%"@ + s@ + "%"@,
                None => f is AllProviders,
            },
        },
{
    match service_type {
        Some(st) => ProviderFilter::ByServiceType(st),
        None => match search {
            Some(s) => ProviderFilter::Search(join3("%", s.as_str(), "%")),
            None => ProviderFilter::AllProviders,
        },
    }
}

/// The profile a lookup found; refused where there is none.
pub fn get_profile<T>(found: Option<T>) -> (r: Result<T, AppError>)
    ensures
        match found {
            Some(p) => r == Ok::<T, AppError>(p),
            None => r matches Err(AppError::NotFound(m)) && m@ == "Profile not found"@,
        },
{
    match found {
        Some(p) => Ok(p),
        None => Err(AppError::NotFound(owned("Profile not found"))),
    }
}

/// The provider profile a lookup found; refused where there is none.
pub fn get_provider<T>(found: Option<T>) -> (r: Result<T, AppError>)
    ensures
        match found {
            Some(p) => r == Ok::<T, AppError>(p),
            None => r matches Err(AppError::NotFound(m)) && m@ == "Provider not found"@,
        },
{
    match found {
        Some(p) => Ok(p),
        None => Err(AppError::NotFound(owned("Provider not found"))),
    }
}

// ---------------------------------------------------------------------------
// Avatars

/// The largest avatar accepted, in bytes: 5 MiB.
pub const MAX_AVATAR_BYTES: usize = 5242880;

/// What `std::path::Path::extension` gives for a file name: the part after
/// the final `.` of its last component, unless that component has no `.` or
/// only a leading one.
pub uninterp spec fn path_extension(name: Seq<char>) -> Option<Seq<char>>;

/// Calls `std::path::Path::extension` and then `OsStr::to_str`. Trusted: the
/// result is std's, as named by `path_extension`, and the text of an
/// extension taken from a `&str` is always valid.
#[verifier::external_body]
fn extension_of(file_name: &str) -> (r: Option<String>)
    ensures
        match (r, path_extension(file_name@)) {
            (Some(e), Some(want)) => e@ == want,
            (None, None) => true,
            _ => false,
        },
{
    match std::path::Path::new(file_name).extension() {
        Some(e) => match e.to_str() {
            Some(s) => Some(s.to_string()),
            None => None,
        },
        None => None,
    }
}

/// The decimal text of an integer, with a leading `-` where it is negative.
pub open spec fn decimal_text(v: int) -> Seq<char>
    decreases (if v < 0 { -v } else { v }), (if v < 0 { 1int } else { 0int }),
{
    if v < 0 {
        seq!['-'] + decimal_text(-v)
    } else if v < 10 {
        seq![crate::ids::hex_digit(v)]
    } else {
        decimal_text(v / 10) + seq![crate::ids::hex_digit(v % 10)]
    }
}

/// The digit of a value below ten, as text.
fn digit_text(d: u64) -> (s: &'static str)
    requires
        d < 10,
    ensures
        s@ == seq![crate::ids::hex_digit(d as int)],
{
    proof {
        reveal_strlit("0");
        reveal_strlit("1");
        reveal_strlit("2");
        reveal_strlit("3");
        reveal_strlit("4");
        reveal_strlit("5");
        reveal_strlit("6");
        reveal_strlit("7");
        reveal_strlit("8");
        reveal_strlit("9");
    }
    match d {
        0 => "0",
        1 => "1",
        2 => "2",
        3 => "3",
        4 => "4",
        5 => "5",
        6 => "6",
        7 => "7",
        8 => "8",
        _ => "9",
    }
}

/// The decimal text of `v`, with a leading `-` where it is negative.
pub fn i64_text(v: i64) -> (s: String)
    ensures
        s@ == decimal_text(v as int),
{
    let magnitude: u64 = if v < 0 { (0i128 - (v as i128)) as u64 } else { v as u64 };
    let ghost whole: int = magnitude as int;
    let mut m: u64 = magnitude;
    let mut acc: String = owned("");
    proof {
        reveal_strlit("");
        assert(whole == if v < 0 { -(v as int) } else { v as int });
        assert(decimal_text(m as int) + acc@ =~= decimal_text(m as int));
    }
    while m >= 10
        invariant
            whole >= 0,
            decimal_text(whole) == decimal_text(m as int) + acc@,
        decreases m,
    {
        let d: u64 = m % 10;
        let next = join2(digit_text(d), acc.as_str());
        proof {
            assert(decimal_text(m as int) == decimal_text((m / 10) as int) + seq![crate::ids::hex_digit(d as int)]);
            assert(decimal_text((m / 10) as int) + seq![crate::ids::hex_digit(d as int)] + acc@
                =~= decimal_text((m / 10) as int) + next@);
        }
        acc = next;
        m = m / 10;
    }
    let digits = join2(digit_text(m), acc.as_str());
    proof {
        assert(decimal_text(m as int) == seq![crate::ids::hex_digit(m as int)]);
        assert(digits@ == decimal_text(whole));
        reveal_strlit("-");
    }
    if v < 0 {
        proof {
            assert(decimal_text(v as int) == seq!['-'] + decimal_text(-(v as int)));
        }
        join2("-", digits.as_str())
    } else {
        digits
    }
}

/// The uploaded file of an avatar form: the first field named `avatar`, with
/// its file name where the client gave one, and its bytes.
pub struct AvatarFile {
    pub file_name: Option<String>,
    pub data: Vec<u8>,
}

/// Whether a form field is the avatar.
pub fn is_avatar_field(name: Option<String>) -> (r: bool)
    ensures
        r == (name matches Some(n) && n@ == "avatar"@),
{
    match name {
        Some(n) => str_eq(n.as_str(), "avatar"),
        None => false,
    }
}

/// The avatar of an upload form, named `avatar.png` where the client gave
/// no file name; a form without one is refused.
pub fn upload_avatar(file: Option<AvatarFile>) -> (r: Result<(String, Vec<u8>), AppError>)
    ensures
        match file {
            None => r matches Err(AppError::BadRequest(m)) && m@ == "No avatar file provided"@,
            Some(f) => r matches Ok((name, data)) && data == f.data && match f.file_name {
                Some(n) => name == n,
                None => name@ == "avatar.png"@,
            },
        },
{
    match file {
        None => Err(AppError::BadRequest(owned("No avatar file provided"))),
        Some(f) => {
            let name = match f.file_name {
                Some(n) => n,
                None => owned("avatar.png"),
            };
            Ok((name, f.data))
        },
    }
}

/// Where an accepted avatar goes.
pub struct AvatarPlan {
    /// The directory to create, if missing.
    pub upload_dir: String,
    /// The file to write.
    pub file_path: String,
    /// The URL recorded on the profile.
    pub avatar_url: String,
}

/// The name an avatar is stored under: the account id, the upload time and
/// the file's extension (`png` where it has none).
pub open spec fn stored_avatar_name(user_id: u128, file_name: Seq<char>, now_secs: i64) -> Seq<char> {
    let ext = match path_extension(file_name) {
        Some(e) => e,
        None => "png"@,
    };
    uuid_text(user_id) + "_"@ + decimal_text(now_secs as int) + "."@ + ext
}

/// Plans the storing of an avatar of `size` bytes uploaded at `now_secs`;
/// a file over 5 MiB is refused.
pub fn avatar_plan(user_id: u128, file_name: &str, size: usize, now_secs: i64) -> (r: Result<AvatarPlan, AppError>)
    ensures
        size > MAX_AVATAR_BYTES ==> (r matches Err(AppError::BadRequest(m)) && m@ == "File too large (max 5MB)"@),
        size <= MAX_AVATAR_BYTES ==> (r matches Ok(p) && {
            let name = stored_avatar_name(user_id, file_name@, now_secs);
            &&& p.upload_dir@ == "./uploads"@
            &&& p.file_path@ == "./uploads/"@ + name
            &&& p.avatar_url@ == "/uploads/"@ + name
        }),
{
    if size > MAX_AVATAR_BYTES {
        return Err(AppError::BadRequest(owned("File too large (max 5MB)")));
    }
    let ext = match extension_of(file_name) {
        Some(e) => e,
        None => owned("png"),
    };
    let id = uuid_to_string(user_id);
    let ts = i64_text(now_secs);
    let a = join3(id.as_str(), "_", ts.as_str());
    let name = join3(a.as_str(), ".", ext.as_str());
    Ok(AvatarPlan {
        upload_dir: owned("./uploads"),
        file_path: join2("./uploads/", name.as_str()),
        avatar_url: join2("/uploads/", name.as_str()),
    })
}

/// The profile whose avatar was recorded; refused where there is none.
pub fn avatar_recorded<T>(found: Option<T>) -> (r: Result<T, AppError>)
    ensures
        match found {
            Some(p) => r == Ok::<T, AppError>(p),
            None => r matches Err(AppError::NotFound(m)) && m@ == "Profile not found"@,
        },
{
    get_profile(found)
}

} // verus!
