use vstd::prelude::*;

use crate::config::SecurityConfig;
use crate::error::Error;
use crate::daemon::resolved_request;
use crate::model::{BuildRequest, EnvVar, TreeRecord, TreeRegistration};
use crate::paths::{inside_some_root, lexical_child_of};
use vstd::utf8::encode_utf8;

use crate::text::{
    blank_or_padded, chars_of, has_prefix, is_blank_or_padded, owned, starts_with_chars,
};

verus! {

/// Admission rules for build requests and source trees.
#[derive(Debug, Clone)]
pub struct Policy {
    security: SecurityConfig,
}

impl View for Policy {
    type V = SecurityConfig;

    closed spec fn view(&self) -> SecurityConfig {
        self.security
    }
}

/// Is `key` one of the denied environment variables?
pub open spec fn denied_key(sec: SecurityConfig, key: Seq<char>) -> bool {
    exists|j: int| 0 <= j < sec.denied_env@.len() && #[trigger] sec.denied_env@[j]@ == key
}

/// Does `url` start with one of the allowed clone URL prefixes?
pub open spec fn url_allowed(sec: SecurityConfig, url: Seq<char>) -> bool {
    exists|j: int|
        0 <= j < sec.clone_url_allowlist@.len() && has_prefix(
            url,
            #[trigger] sec.clone_url_allowlist@[j]@,
        )
}

/// Why a clone URL is refused, if it is.
pub open spec fn clone_url_problem(sec: SecurityConfig, url: Seq<char>) -> Option<Seq<char>> {
    if blank_or_padded(url) {
        Some("clone URL must be non-empty"@)
    } else if url_allowed(sec, url) {
        None
    } else {
        Some("clone URL "@ + url + " is outside allowlist"@)
    }
}

/// Why a choice of source (local root or clone URL) is refused, if it is.
/// `what` names the thing that carries the source ("request" or "tree"),
/// and `none_message` is the complaint when neither is given.
pub open spec fn source_problem(
    sec: SecurityConfig,
    root: Option<String>,
    url: Option<String>,
    what: Seq<char>,
    none_message: Seq<char>,
) -> Option<Seq<char>> {
    match (root, url) {
        (Some(r), None) => if inside_some_root(r@, sec.source_allowlist@) {
            None
        } else {
            Some("source root "@ + r@ + " is outside allowlist"@)
        },
        (None, Some(u)) => clone_url_problem(sec, u@),
        (Some(_), Some(_)) => Some(what + " must not include both source_root and source_url"@),
        (None, None) => Some(none_message),
    }
}

/// The complaint about the first denied variable in `env`, if any.
pub open spec fn env_problem(sec: SecurityConfig, env: Seq<EnvVar>) -> Option<Seq<char>>
    decreases env.len(),
{
    if env.len() == 0 {
        None
    } else if denied_key(sec, env[0].key@) {
        Some("denied environment variable "@ + env[0].key@)
    } else {
        env_problem(sec, env.drop_first())
    }
}

/// Why a build request is refused, if it is: the first rule it breaks.
pub open spec fn request_problem(sec: SecurityConfig, req: BuildRequest) -> Option<Seq<char>> {
    match source_problem(
        sec,
        req.source_root,
        req.source_url,
        "request"@,
        "request must include source_root, source_url, or tree_name"@,
    ) {
        Some(m) => Some(m),
        None => match env_problem(sec, req.env@) {
            Some(m) => Some(m),
            None => if req.make_targets@.len() == 0 {
                Some("at least one make target is required"@)
            } else {
                None
            },
        },
    }
}

/// Is this byte allowed in a tree name?
pub open spec fn tree_name_byte(b: u8) -> bool {
    (48 <= b <= 57) || (65 <= b <= 90) || (97 <= b <= 122) || b == 46 || b == 95 || b == 45
        || b == 47
}

/// Why a tree name (given as its UTF-8 bytes) is refused, if it is.
pub open spec fn tree_name_problem(name: Seq<u8>) -> Option<Seq<char>> {
    if name.len() == 0 || name.len() > 128 {
        Some("tree name must be between 1 and 128 bytes"@)
    } else if exists|i: int| 0 <= i < name.len() && !tree_name_byte(#[trigger] name[i]) {
        Some("tree name may only contain letters, digits, '.', '_', '-', and '/'"@)
    } else {
        None
    }
}

/// A tree name is accepted exactly when it has 1 to 128 bytes, each an ASCII
/// digit (48..=57), an uppercase (65..=90) or lowercase (97..=122) ASCII
/// letter, or one of `.` (46), `_` (95), `-` (45) and `/` (47).
pub proof fn tree_names_of_allowed_bytes(name: Seq<u8>)
    ensures
        tree_name_problem(name) is None <==> 1 <= name.len() <= 128 && forall|i: int|
            0 <= i < name.len() ==> {
                let b = #[trigger] name[i];
                (48 <= b <= 57) || (65 <= b <= 90) || (97 <= b <= 122) || b == 46 || b == 95 || b
                    == 45 || b == 47
            },
{
}

/// Why a tree registration is refused, if it is.
pub open spec fn tree_problem(sec: SecurityConfig, tree: TreeRegistration) -> Option<Seq<char>> {
    match tree_name_problem(encode_utf8(tree.name@)) {
        Some(m) => Some(m),
        None => source_problem(
            sec,
            tree.source_root,
            tree.source_url,
            "tree"@,
            "tree must include source_root or source_url"@,
        ),
    }
}

impl Policy {
    pub fn new(security: SecurityConfig) -> (p: Self)
        ensures
            p@ == security,
    {
        Policy { security }
    }

    /// Accepts a request whose single source is allowed, that sets no denied
    /// environment variable and that names at least one make target.
    pub fn validate_request(&self, request: &BuildRequest) -> (r: Result<(), Error>)
        ensures
            r is Ok <==> request_problem(self@, *request) is None,
            r matches Err(e) ==> e matches Error::Policy(m) && Some(m@) == request_problem(
                self@,
                *request,
            ),
    {
        self.check_source(
            &request.source_root,
            &request.source_url,
            "request",
            "request must include source_root, source_url, or tree_name",
        )?;
        let mut i: usize = 0;
        assert(request.env@.skip(0) =~= request.env@);
        while i < request.env.len()
            invariant
                i <= request.env@.len(),
                source_problem(
                    self@,
                    request.source_root,
                    request.source_url,
                    "request"@,
                    "request must include source_root, source_url, or tree_name"@,
                ) is None,
                env_problem(self@, request.env@) == env_problem(self@, request.env@.skip(i as int)),
            decreases request.env@.len() - i,
        {
            let key = &request.env[i].key;
            assert(request.env@.skip(i as int).drop_first() =~= request.env@.skip(i + 1));
            assert(request.env@.skip(i as int)[0] == request.env@[i as int]);
            if self.is_denied(key) {
                let mut m = owned("denied environment variable ");
                m.append(key.as_str());
                return Err(Error::Policy(m));
            }
            i = i + 1;
        }
        if request.make_targets.len() == 0 {
            return Err(Error::Policy(owned("at least one make target is required")));
        }
        Ok(())
    }

    /// Accepts a tree whose name is well formed and whose single source is
    /// allowed.
    pub fn validate_tree_registration(&self, tree: &TreeRegistration) -> (r: Result<(), Error>)
        ensures
            r is Ok <==> tree_problem(self@, *tree) is None,
            r matches Err(e) ==> e matches Error::Policy(m) && Some(m@) == tree_problem(
                self@,
                *tree,
            ),
    {
        validate_tree_name(&tree.name)?;
        self.check_source(
            &tree.source_root,
            &tree.source_url,
            "tree",
            "tree must include source_root or source_url",
        )
    }

    fn is_denied(&self, key: &String) -> (r: bool)
        ensures
            r == denied_key(self@, key@),
    {
        let mut j: usize = 0;
        while j < self.security.denied_env.len()
            invariant
                j <= self@.denied_env@.len(),
                forall|k: int| 0 <= k < j ==> #[trigger] self@.denied_env@[k]@ != key@,
            decreases self@.denied_env@.len() - j,
        {
            if self.security.denied_env[j] == *key {
                return true;
            }
            j = j + 1;
        }
        false
    }

    fn check_source(
        &self,
        root: &Option<String>,
        url: &Option<String>,
        what: &str,
        none_message: &str,
    ) -> (r: Result<(), Error>)
        ensures
            ({
                let expected = source_problem(self@, *root, *url, what@, none_message@);
                &&& r is Ok <==> expected is None
                &&& r matches Err(e) ==> e matches Error::Policy(m) && Some(m@) == expected
            }),
    {
        match (root, url) {
            (Some(source_root), None) => {
                if !lexical_child_of(source_root.as_str(), self.security.source_allowlist.as_slice()) {
                    let mut m = owned("source root ");
                    m.append(source_root.as_str());
                    m.append(" is outside allowlist");
                    return Err(Error::Policy(m));
                }
                Ok(())
            },
            (None, Some(source_url)) => self.validate_clone_url(source_url.as_str()),
            (Some(_), Some(_)) => {
                let mut m = owned(what);
                m.append(" must not include both source_root and source_url");
                Err(Error::Policy(m))
            },
            (None, None) => Err(Error::Policy(owned(none_message))),
        }
    }

    fn validate_clone_url(&self, source_url: &str) -> (r: Result<(), Error>)
        ensures
            r is Ok <==> clone_url_problem(self@, source_url@) is None,
            r matches Err(e) ==> e matches Error::Policy(m) && Some(m@) == clone_url_problem(
                self@,
                source_url@,
            ),
    {
        let chars = chars_of(source_url);
        if is_blank_or_padded(&chars) {
            return Err(Error::Policy(owned("clone URL must be non-empty")));
        }
        let mut j: usize = 0;
        while j < self.security.clone_url_allowlist.len()
            invariant
                j <= self@.clone_url_allowlist@.len(),
                chars@ == source_url@,
                !blank_or_padded(source_url@),
                forall|k: int|
                    0 <= k < j ==> !has_prefix(source_url@, #[trigger] self@.clone_url_allowlist@[k]@),
            decreases self@.clone_url_allowlist@.len() - j,
        {
            let prefix = chars_of(self.security.clone_url_allowlist[j].as_str());
            if starts_with_chars(&chars, &prefix) {
                assert(has_prefix(source_url@, self@.clone_url_allowlist@[j as int]@));
                return Ok(());
            }
            j = j + 1;
        }
        let mut m = owned("clone URL ");
        m.append(source_url);
        m.append(" is outside allowlist");
        Err(Error::Policy(m))
    }
}

/// Accepts names of 1 to 128 bytes made of ASCII letters, digits, `.`, `_`,
/// `-` and `/`.
fn validate_tree_name(name: &String) -> (r: Result<(), Error>)
    ensures
        r is Ok <==> tree_name_problem(encode_utf8(name@)) is None,
        r matches Err(e) ==> e matches Error::Policy(m) && Some(m@) == tree_name_problem(
            encode_utf8(name@),
        ),
{
    let bytes = name.as_str().as_bytes();
    if bytes.len() == 0 || bytes.len() > 128 {
        return Err(Error::Policy(owned("tree name must be between 1 and 128 bytes")));
    }
    let mut i: usize = 0;
    while i < bytes.len()
        invariant
            i <= bytes@.len(),
            1 <= bytes@.len() <= 128,
            bytes@ == encode_utf8(name@),
            forall|k: int| 0 <= k < i ==> tree_name_byte(#[trigger] bytes@[k]),
        decreases bytes@.len() - i,
    {
        let b = bytes[i];
        if !((48 <= b && b <= 57) || (65 <= b && b <= 90) || (97 <= b && b <= 122) || b == 46 || b
            == 95 || b == 45 || b == 47) {
            assert(!tree_name_byte(bytes@[i as int]));
            return Err(
                Error::Policy(
                    owned("tree name may only contain letters, digits, '.', '_', '-', and '/'"),
                ),
            );
        }
        i = i + 1;
    }
    Ok(())
}

proof fn lemma_no_env_problem(sec: SecurityConfig, env: Seq<EnvVar>)
    requires
        env_problem(sec, env) is None,
    ensures
        forall|i: int| 0 <= i < env.len() ==> !denied_key(sec, (#[trigger] env[i]).key@),
    decreases env.len(),
{
    if env.len() > 0 {
        lemma_no_env_problem(sec, env.drop_first());
        assert forall|i: int| 0 <= i < env.len() implies !denied_key(
            sec,
            (#[trigger] env[i]).key@,
        ) by {
            if i > 0 {
                assert(env[i] == env.drop_first()[i - 1]);
            }
        }
    }
}

/// A request that the policy accepts names exactly one source, which lies
/// under an allowed source root or is a clone URL with an allowed prefix and
/// no surrounding whitespace; it sets no denied environment variable and it
/// names at least one make target.
pub proof fn accepted_request_is_contained(sec: SecurityConfig, request: BuildRequest)
    requires
        request_problem(sec, request) is None,
    ensures
        request.source_root is Some != request.source_url is Some,
        request.source_root matches Some(r) ==> inside_some_root(r@, sec.source_allowlist@),
        request.source_url matches Some(u) ==> url_allowed(sec, u@) && !blank_or_padded(u@),
        forall|i: int|
            0 <= i < request.env@.len() ==> !denied_key(sec, (#[trigger] request.env@[i]).key@),
        request.make_targets@.len() > 0,
{
    lemma_no_env_problem(sec, request.env@);
}

/// A tree that the policy accepted at registration, used by name in a request
/// that gives no source of its own, yields a request whose source the policy
/// accepts: scheduling by a registered name cannot reach a source that a
/// direct request could not.
pub proof fn registered_tree_source_is_accepted(
    sec: SecurityConfig,
    registration: TreeRegistration,
    tree: TreeRecord,
    request: BuildRequest,
)
    requires
        tree_problem(sec, registration) is None,
        tree.source_root == registration.source_root,
        tree.source_url == registration.source_url,
        request.source_root is None,
        request.source_url is None,
    ensures
        ({
            let resolved = resolved_request(request, tree);
            source_problem(
                sec,
                resolved.source_root,
                resolved.source_url,
                "request"@,
                "request must include source_root, source_url, or tree_name"@,
            ) is None
        }),
{
}

} // verus!
