use vstd::prelude::*;

use sha2::{Digest, Sha256};

use crate::config::Config;
use crate::error::Error;
use crate::ids::{job_id_text, JobId};
use crate::model::{ArtifactRecord, BuildRequest, JobRecord};
use crate::paths::{
    path_join, path_strip_prefix, utf8_path_is_absolute, utf8_path_join, utf8_path_strip_prefix,
};
use crate::runtime::{opt_string_text, RuntimeCommand};
use crate::text::{
    chars_of, contains_chars, contains_seq, has_prefix, hex_bytes, hex_of_bytes, join,
    join_strings, owned, push_char, push_text, starts_with_chars, texts,
};

verus! {

/// What `sha2::Sha256::digest` gives for some bytes.
pub uninterp spec fn sha256_digest(data: Seq<u8>) -> Seq<u8>;

/// SHA-256 digest.
///
/// Trusted: wraps `Sha256::digest`; the digest is named by `sha256_digest`,
/// and its length is the 32 bytes that `Sha256`'s output size fixes.
#[verifier::external_body]
fn sha256(data: &[u8]) -> (r: Vec<u8>)
    ensures
        r@ == sha256_digest(data@),
        r@.len() == 32,
{
    Sha256::digest(data).to_vec()
}

/// A text with each `'` in it written as `'\''` (close the quotes, an escaped
/// quote, reopen the quotes) and every other character kept.
pub open spec fn escape_quotes(s: Seq<char>) -> Seq<char>
    decreases s.len(),
{
    if s.len() == 0 {
        Seq::empty()
    } else {
        escape_quotes(s.drop_last()) + (if s.last() == '\'' {
            "'\\''"@
        } else {
            seq![s.last()]
        })
    }
}

/// A text inside single quotes, with its own quotes escaped: one shell word
/// that stands for the text exactly (see `shell_quoting_preserves_value`).
pub open spec fn shell_quoted(s: Seq<char>) -> Seq<char> {
    seq!['\''] + escape_quotes(s) + seq!['\'']
}

/// Quotes a value as one shell word (see `shell_quoting_preserves_value`).
pub fn shell_quote(value: &str) -> (q: String)
    ensures
        q@ == shell_quoted(value@),
{
    let chars = chars_of(value);
    let mut q = String::new();
    push_char(&mut q, '\'');
    let mut i: usize = 0;
    while i < chars.len()
        invariant
            i <= chars@.len(),
            chars@ == value@,
            q@ == seq!['\''] + escape_quotes(value@.take(i as int)),
        decreases chars@.len() - i,
    {
        assert(value@.take(i + 1).drop_last() =~= value@.take(i as int));
        let c = chars[i];
        if c == '\'' {
            q.append("'\\''");
        } else {
            push_char(&mut q, c);
        }
        i = i + 1;
        assert(q@ =~= seq!['\''] + escape_quotes(value@.take(i as int)));
    }
    assert(value@.take(i as int) =~= value@);
    push_char(&mut q, '\'');
    assert(q@ =~= shell_quoted(value@));
    q
}

/// Characters that end or change a shell word when they stand outside
/// quotes.
pub open spec fn shell_special(c: char) -> bool {
    c == ' ' || c == '\t' || c == '\n' || c == '|' || c == '&' || c == ';' || c == '<' || c == '>'
        || c == '(' || c == ')' || c == '$' || c == '`' || c == '"' || c == '*' || c == '?' || c
        == '[' || c == '#' || c == '~'
}

/// The value of the rest of a POSIX shell word read outside quotes: `'`
/// opens a single-quoted run, `\` takes the next character literally, other
/// characters stand for themselves, and a special character means the text is
/// not one plain word (`None`).
pub open spec fn word_value_plain(w: Seq<char>) -> Option<Seq<char>>
    decreases w.len(),
{
    if w.len() == 0 {
        Some(Seq::empty())
    } else if w[0] == '\'' {
        word_value_quoted(w.drop_first())
    } else if w[0] == '\\' && w.len() >= 2 {
        match word_value_plain(w.skip(2)) {
            Some(v) => Some(seq![w[1]] + v),
            None => None,
        }
    } else if w[0] == '\\' || shell_special(w[0]) {
        None
    } else {
        match word_value_plain(w.drop_first()) {
            Some(v) => Some(seq![w[0]] + v),
            None => None,
        }
    }
}

/// The value of the rest of a shell word read inside single quotes, where
/// every character but `'` stands for itself and `'` closes the run.
pub open spec fn word_value_quoted(w: Seq<char>) -> Option<Seq<char>>
    decreases w.len(),
{
    if w.len() == 0 {
        None
    } else if w[0] == '\'' {
        word_value_plain(w.drop_first())
    } else {
        match word_value_quoted(w.drop_first()) {
            Some(v) => Some(seq![w[0]] + v),
            None => None,
        }
    }
}

proof fn lemma_escape_concat(a: Seq<char>, b: Seq<char>)
    ensures
        escape_quotes(a + b) == escape_quotes(a) + escape_quotes(b),
    decreases b.len(),
{
    if b.len() == 0 {
        assert(a + b =~= a);
        assert(escape_quotes(a) + escape_quotes(b) =~= escape_quotes(a));
    } else {
        lemma_escape_concat(a, b.drop_last());
        assert((a + b).drop_last() =~= a + b.drop_last());
        assert((a + b).last() == b.last());
        let piece = if b.last() == '\'' {
            "'\\''"@
        } else {
            seq![b.last()]
        };
        assert(escape_quotes(a + b) == escape_quotes(a + b.drop_last()) + piece);
        assert(escape_quotes(b) == escape_quotes(b.drop_last()) + piece);
        assert(escape_quotes(a) + escape_quotes(b.drop_last()) + piece =~= escape_quotes(a) + (
        escape_quotes(b.drop_last()) + piece));
    }
}

proof fn lemma_quoted_run(s: Seq<char>, t: Seq<char>)
    ensures
        word_value_quoted(escape_quotes(s) + seq!['\''] + t) == match word_value_plain(t) {
            Some(v) => Some(s + v),
            None => None::<Seq<char>>,
        },
    decreases s.len(),
{
    reveal_strlit("'\\''");
    if s.len() == 0 {
        assert(escape_quotes(s) + seq!['\''] + t =~= seq!['\''] + t);
        assert((seq!['\''] + t).drop_first() =~= t);
        match word_value_plain(t) {
            Some(v) => assert(s + v =~= v),
            None => {},
        }
    } else {
        let c = s[0];
        let r = s.drop_first();
        assert(s =~= seq![c] + r);
        lemma_escape_concat(seq![c], r);
        assert(seq![c].drop_last() =~= Seq::<char>::empty());
        lemma_quoted_run(r, t);
        let rest = escape_quotes(r) + seq!['\''] + t;
        assert(escape_quotes(Seq::<char>::empty()) =~= Seq::<char>::empty());
        assert(seq![c].last() == c);
        if c == '\'' {
            assert("'\\''"@ =~= seq!['\'', '\\', '\'', '\'']);
            assert(escape_quotes(seq![c]) =~= seq!['\'', '\\', '\'', '\'']);
            let w = seq!['\'', '\\', '\'', '\''] + rest;
            assert(escape_quotes(s) + seq!['\''] + t =~= w);
            assert(w.drop_first() =~= seq!['\\', '\'', '\''] + rest);
            assert(w.drop_first().skip(2) =~= seq!['\''] + rest);
            assert((seq!['\''] + rest).drop_first() =~= rest);
            assert(word_value_quoted(w) == word_value_plain(w.drop_first()));
            assert(word_value_plain(seq!['\''] + rest) == word_value_quoted(rest));
            assert(word_value_plain(w.drop_first()) == match word_value_plain(
                w.drop_first().skip(2),
            ) {
                Some(v) => Some(seq!['\''] + v),
                None => None::<Seq<char>>,
            });
            match word_value_plain(t) {
                Some(v) => assert(seq!['\''] + (r + v) =~= s + v),
                None => {},
            }
        } else {
            assert(escape_quotes(seq![c]) =~= seq![c]);
            let w = seq![c] + rest;
            assert(escape_quotes(s) + seq!['\''] + t =~= w);
            assert(w.drop_first() =~= rest);
            assert(word_value_quoted(w) == match word_value_quoted(rest) {
                Some(v) => Some(seq![c] + v),
                None => None::<Seq<char>>,
            });
            match word_value_plain(t) {
                Some(v) => assert(seq![c] + (r + v) =~= s + v),
                None => {},
            }
        }
    }
}

/// Quoting a value for the build script gives one shell word whose value is
/// exactly that value, whatever characters it holds.
pub proof fn shell_quoting_preserves_value(value: Seq<char>)
    ensures
        word_value_plain(shell_quoted(value)) == Some(value),
{
    lemma_quoted_run(value, Seq::empty());
    let w = shell_quoted(value);
    assert(w.drop_first() =~= escape_quotes(value) + seq!['\''] + Seq::<char>::empty());
    assert(value + Seq::<char>::empty() =~= value);
}

/// The words of a `make` command for `arch` and `targets`, run in the source
/// directory with the output directory as object tree.
pub open spec fn make_words(arch: Seq<char>, targets: Seq<Seq<char>>) -> Seq<Seq<char>> {
    seq![
        "make"@,
        "-C"@,
        "\"$KBS_SOURCE_DIR\""@,
        "O=\"$KBS_OUTPUT_DIR\""@,
        "ARCH="@ + shell_quoted(arch),
    ] + targets.map_values(|t: Seq<char>| shell_quoted(t))
}

pub open spec fn make_line_text(arch: Seq<char>, targets: Seq<Seq<char>>) -> Seq<char> {
    join(make_words(arch, targets), " "@)
}

fn make_line(arch: &str, targets: &Vec<String>) -> (line: String)
    ensures
        line@ == make_line_text(arch@, texts(targets@)),
{
    let mut words: Vec<String> = Vec::new();
    push_text(&mut words, owned("make"));
    push_text(&mut words, owned("-C"));
    push_text(&mut words, owned("\"$KBS_SOURCE_DIR\""));
    push_text(&mut words, owned("O=\"$KBS_OUTPUT_DIR\""));
    let mut arch_word = owned("ARCH=");
    let quoted = shell_quote(arch);
    arch_word.append(quoted.as_str());
    push_text(&mut words, arch_word);
    let ghost head = seq![
        "make"@,
        "-C"@,
        "\"$KBS_SOURCE_DIR\""@,
        "O=\"$KBS_OUTPUT_DIR\""@,
        "ARCH="@ + shell_quoted(arch@),
    ];
    let ghost quoted_targets = texts(targets@).map_values(|t: Seq<char>| shell_quoted(t));
    assert(texts(words@) =~= head);
    let mut i: usize = 0;
    while i < targets.len()
        invariant
            i <= targets@.len(),
            quoted_targets == texts(targets@).map_values(|t: Seq<char>| shell_quoted(t)),
            texts(words@) == head + quoted_targets.take(i as int),
        decreases targets@.len() - i,
    {
        push_text(&mut words, shell_quote(targets[i].as_str()));
        i = i + 1;
        assert(quoted_targets.take(i as int) =~= quoted_targets.take(i - 1).push(
            shell_quoted(targets@[i - 1]@),
        ));
    }
    assert(quoted_targets.take(i as int) =~= quoted_targets);
    join_strings(&words, " ")
}

/// Does a (relative) fragment path climb out of the source tree?
pub open spec fn climbs_out(rel: Seq<char>) -> bool {
    rel == ".."@ || has_prefix(rel, "../"@) || contains_seq(rel, "/../"@)
}

/// The `merge_config.sh` argument for a config fragment, or the message it
/// is refused with. An absolute fragment must lie under the local source
/// root and is taken relative to it.
pub open spec fn fragment_arg(root: Option<Seq<char>>, fragment: Seq<char>) -> Result<
    Seq<char>,
    Seq<char>,
> {
    let relative: Result<Seq<char>, Seq<char>> = if fragment.len() > 0 && fragment[0] == '/' {
        match root {
            None => Err("absolute config fragments require a local source_root"@),
            Some(r) => match path_strip_prefix(fragment, r) {
                None => Err("config fragment "@ + fragment + " is outside source root "@ + r),
                Some(rest) => Ok(rest),
            },
        }
    } else {
        Ok(fragment)
    };
    match relative {
        Err(m) => Err(m),
        Ok(rel) => if climbs_out(rel) {
            Err("config fragment "@ + fragment + " must stay inside source root"@)
        } else {
            Ok("\"$KBS_SOURCE_DIR\"/"@ + shell_quoted(rel))
        },
    }
}

fn same_chars(a: &Vec<char>, b: &Vec<char>) -> (r: bool)
    ensures
        r == (a@ == b@),
{
    if a.len() != b.len() {
        return false;
    }
    let r = starts_with_chars(a, b);
    assert(a@.take(b@.len() as int) =~= a@);
    r
}

fn source_fragment_arg(source_root: &Option<String>, fragment: &str) -> (r: Result<
    String,
    Error,
>)
    ensures
        ({
            let root = match source_root {
                Some(s) => Some(s@),
                None => None,
            };
            match fragment_arg(root, fragment@) {
                Ok(a) => r matches Ok(s) && s@ == a,
                Err(m) => r matches Err(e) && e matches Error::Config(em) && em@ == m,
            }
        }),
{
    let relative: String = if utf8_path_is_absolute(fragment) {
        match source_root {
            None => {
                return Err(
                    Error::Config(owned("absolute config fragments require a local source_root")),
                );
            },
            Some(root) => match utf8_path_strip_prefix(fragment, root.as_str()) {
                None => {
                    let mut m = owned("config fragment ");
                    m.append(fragment);
                    m.append(" is outside source root ");
                    m.append(root.as_str());
                    return Err(Error::Config(m));
                },
                Some(rest) => rest,
            },
        }
    } else {
        owned(fragment)
    };
    let rel = chars_of(relative.as_str());
    let dotdot = chars_of("..");
    let up = chars_of("../");
    let inner = chars_of("/../");
    if same_chars(&rel, &dotdot) || starts_with_chars(&rel, &up) || contains_chars(&rel, &inner) {
        let mut m = owned("config fragment ");
        m.append(fragment);
        m.append(" must stay inside source root");
        return Err(Error::Config(m));
    }
    let mut arg = owned("\"$KBS_SOURCE_DIR\"/");
    let quoted = shell_quote(relative.as_str());
    arg.append(quoted.as_str());
    Ok(arg)
}

/// The `merge_config.sh` arguments for the fragments in order, or the
/// message for the first one that is refused.
pub open spec fn fragment_args(root: Option<Seq<char>>, fragments: Seq<Seq<char>>) -> Result<
    Seq<Seq<char>>,
    Seq<char>,
>
    decreases fragments.len(),
{
    if fragments.len() == 0 {
        Ok(Seq::empty())
    } else {
        match fragment_args(root, fragments.drop_last()) {
            Err(m) => Err(m),
            Ok(previous) => match fragment_arg(root, fragments.last()) {
                Err(m) => Err(m),
                Ok(a) => Ok(previous.push(a)),
            },
        }
    }
}

/// The fragment arguments follow the fragments one for one and in order:
/// when they are accepted there is one argument per fragment, the i-th being
/// the argument of the i-th fragment; and they are accepted when every
/// fragment is.
pub proof fn fragment_args_follow_fragments(root: Option<Seq<char>>, frags: Seq<Seq<char>>)
    ensures
        fragment_args(root, frags) matches Ok(words) ==> words.len() == frags.len() && forall|
            i: int,
        |
            0 <= i < frags.len() ==> fragment_arg(root, #[trigger] frags[i]) == Ok::<
                Seq<char>,
                Seq<char>,
            >(words[i]),
        (forall|i: int| 0 <= i < frags.len() ==> (#[trigger] fragment_arg(root, frags[i])) is Ok)
            ==> fragment_args(root, frags) is Ok,
    decreases frags.len(),
{
    if frags.len() > 0 {
        let front = frags.drop_last();
        fragment_args_follow_fragments(root, front);
        assert forall|i: int| 0 <= i < front.len() implies #[trigger] front[i] == frags[i] by {}
        if let Ok(words) = fragment_args(root, frags) {
            let previous = fragment_args(root, front)->Ok_0;
            let last = fragment_arg(root, frags.last())->Ok_0;
            assert(words == previous.push(last));
            assert forall|i: int| 0 <= i < frags.len() implies fragment_arg(
                root,
                #[trigger] frags[i],
            ) == Ok::<Seq<char>, Seq<char>>(words[i]) by {
                if i < front.len() {
                    assert(front[i] == frags[i]);
                    assert(words[i] == previous[i]);
                }
            }
        }
        if forall|i: int| 0 <= i < frags.len() ==> (#[trigger] fragment_arg(root, frags[i])) is Ok {
            assert forall|i: int| 0 <= i < front.len() implies (#[trigger] fragment_arg(
                root,
                front[i],
            )) is Ok by {
                assert(fragment_arg(root, frags[i]) is Ok);
            }
            assert(fragment_arg(root, frags[frags.len() - 1]) is Ok);
        }
    }
}

/// The fixed words that start the `merge_config.sh` line.
pub open spec fn merge_head() -> Seq<Seq<char>> {
    seq![
        "\"$KBS_SOURCE_DIR\"/scripts/kconfig/merge_config.sh"@,
        "-m"@,
        "-O"@,
        "\"$KBS_OUTPUT_DIR\""@,
        "\"$KBS_OUTPUT_DIR/.config\""@,
    ]
}

/// The lines of a build script, given the fragment arguments: configure
/// with the config target; when there are fragments, merge them and
/// refresh the configuration; then build the make targets.
pub open spec fn script_lines(request: BuildRequest, fragment_words: Seq<Seq<char>>) -> Seq<
    Seq<char>,
> {
    seq!["set -eu"@, make_line_text(request.arch@, seq![request.config_target@])] + (
    if request.config_fragments@.len() > 0 {
        seq![
            join(merge_head() + fragment_words, " "@),
            make_line_text(request.arch@, seq!["olddefconfig"@]),
        ]
    } else {
        Seq::empty()
    }) + seq![make_line_text(request.arch@, texts(request.make_targets@))]
}

/// The shell script that builds a request, or the message it is refused with.
pub open spec fn build_script_text(request: BuildRequest) -> Result<Seq<char>, Seq<char>> {
    match fragment_args(opt_string_text(request.source_root), texts(request.config_fragments@)) {
        Err(m) => Err(m),
        Ok(words) => Ok(join(script_lines(request, words), "\n"@)),
    }
}

fn single(s: &String) -> (v: Vec<String>)
    ensures
        texts(v@) == seq![s@],
{
    let mut v: Vec<String> = Vec::new();
    push_text(&mut v, s.clone());
    assert(texts(v@) =~= seq![s@]);
    v
}

fn merge_line(request: &BuildRequest) -> (r: Result<String, Error>)
    ensures
        match fragment_args(opt_string_text(request.source_root), texts(request.config_fragments@)) {
            Ok(words) => r matches Ok(s) && s@ == join(merge_head() + words, " "@),
            Err(m) => r matches Err(e) && e matches Error::Config(em) && em@ == m,
        },
{
    let ghost root = opt_string_text(request.source_root);
    let ghost frags = texts(request.config_fragments@);
    let mut words: Vec<String> = Vec::new();
    push_text(&mut words, owned("\"$KBS_SOURCE_DIR\"/scripts/kconfig/merge_config.sh"));
    push_text(&mut words, owned("-m"));
    push_text(&mut words, owned("-O"));
    push_text(&mut words, owned("\"$KBS_OUTPUT_DIR\""));
    push_text(&mut words, owned("\"$KBS_OUTPUT_DIR/.config\""));
    assert(texts(words@) =~= merge_head());
    assert(frags.take(0) =~= Seq::<Seq<char>>::empty());
    let mut i: usize = 0;
    while i < request.config_fragments.len()
        invariant
            i <= request.config_fragments@.len(),
            root == opt_string_text(request.source_root),
            frags == texts(request.config_fragments@),
            fragment_args(root, frags.take(i as int)) matches Ok(done) && texts(words@)
                == merge_head() + done,
        decreases request.config_fragments@.len() - i,
    {
        assert(frags.take(i + 1).drop_last() =~= frags.take(i as int));
        assert(frags.take(i + 1).last() == request.config_fragments@[i as int]@);
        let arg = source_fragment_arg(&request.source_root, request.config_fragments[i].as_str());
        match arg {
            Ok(a) => {
                push_text(&mut words, a);
                i = i + 1;
            },
            Err(e) => {
                proof {
                    lemma_fragment_error_persists(root, frags, i as int + 1);
                }
                return Err(e);
            },
        }
    }
    assert(frags.take(i as int) =~= frags);
    Ok(join_strings(&words, " "))
}

proof fn lemma_fragment_error_persists(root: Option<Seq<char>>, frags: Seq<Seq<char>>, k: int)
    requires
        0 <= k <= frags.len(),
        fragment_args(root, frags.take(k)) is Err,
    ensures
        fragment_args(root, frags) == fragment_args(root, frags.take(k)),
    decreases frags.len() - k,
{
    if k < frags.len() {
        assert(frags.take(k + 1).drop_last() =~= frags.take(k));
        lemma_fragment_error_persists(root, frags, k + 1);
    } else {
        assert(frags.take(k) =~= frags);
    }
}

fn build_script(request: &BuildRequest) -> (r: Result<String, Error>)
    ensures
        match build_script_text(*request) {
            Ok(script) => r matches Ok(s) && s@ == script,
            Err(m) => r matches Err(e) && e matches Error::Config(em) && em@ == m,
        },
{
    let mut lines: Vec<String> = Vec::new();
    push_text(&mut lines, owned("set -eu"));
    push_text(&mut lines, make_line(request.arch.as_str(), &single(&request.config_target)));
    let ghost head = seq![
        "set -eu"@,
        make_line_text(request.arch@, seq![request.config_target@]),
    ];
    assert(texts(lines@) =~= head);
    let ghost frags = texts(request.config_fragments@);
    if request.config_fragments.len() > 0 {
        let merge = merge_line(request)?;
        push_text(&mut lines, merge);
        push_text(&mut lines, make_line(request.arch.as_str(), &single(&owned("olddefconfig"))));
    } else {
        assert(frags =~= Seq::<Seq<char>>::empty());
    }
    push_text(&mut lines, make_line(request.arch.as_str(), &request.make_targets));
    let ghost words = fragment_args(opt_string_text(request.source_root), frags)->Ok_0;
    assert(texts(lines@) =~= script_lines(*request, words));
    Ok(join_strings(&lines, "\n"))
}

/// Where a request's source comes from: its local root or its clone URL.
pub open spec fn request_source(request: BuildRequest) -> Result<Seq<char>, Seq<char>> {
    match (request.source_root, request.source_url) {
        (Some(r), None) => Ok(r@),
        (None, Some(u)) => Ok(u@),
        (Some(_), Some(_)) => Err("request must not include both source_root and source_url"@),
        (None, None) => Err("request has no resolved source"@),
    }
}

/// The location to fetch a request's source from.
pub fn source_location(request: &BuildRequest) -> (r: Result<&str, Error>)
    ensures
        match request_source(*request) {
            Ok(s) => r matches Ok(l) && l@ == s,
            Err(m) => r matches Err(e) && e matches Error::Config(em) && em@ == m,
        },
{
    match (&request.source_root, &request.source_url) {
        (Some(source_root), None) => Ok(source_root.as_str()),
        (None, Some(source_url)) => Ok(source_url.as_str()),
        (Some(_), Some(_)) => Err(
            Error::Config(owned("request must not include both source_root and source_url")),
        ),
        (None, None) => Err(Error::Config(owned("request has no resolved source"))),
    }
}

/// The names to try, in order, when resolving a git ref to a commit: the ref
/// itself and, unless it is already a full `refs/` name, the remote branch,
/// the local branch and the tag of that name.
pub open spec fn ref_candidates(git_ref: Seq<char>) -> Seq<Seq<char>> {
    if has_prefix(git_ref, "refs/"@) {
        seq![git_ref]
    } else {
        seq![
            git_ref,
            "refs/remotes/origin/"@ + git_ref,
            "refs/heads/"@ + git_ref,
            "refs/tags/"@ + git_ref,
        ]
    }
}

/// The refs tried for a name: a full `refs/...` name alone; any other name
/// first as given, then as the `origin` remote branch, the local branch and
/// the tag of that name, in that order.
pub proof fn ref_candidates_by_name(git_ref: Seq<char>)
    ensures
        git_ref.len() >= 5 && git_ref.subrange(0, 5) == "refs/"@ ==> ref_candidates(git_ref)
            == seq![git_ref],
        !(git_ref.len() >= 5 && git_ref.subrange(0, 5) == "refs/"@) ==> ref_candidates(git_ref)
            == seq![
            git_ref,
            "refs/remotes/origin/"@ + git_ref,
            "refs/heads/"@ + git_ref,
            "refs/tags/"@ + git_ref,
        ],
{
    reveal_strlit("refs/");
    assert(git_ref.len() >= 5 ==> git_ref.take(5) =~= git_ref.subrange(0, 5));
}

fn prefixed(prefix: &str, s: &str) -> (r: String)
    ensures
        r@ == prefix@ + s@,
{
    let mut r = owned(prefix);
    r.append(s);
    r
}

pub fn git_ref_candidates(git_ref: &str) -> (v: Vec<String>)
    ensures
        texts(v@) == ref_candidates(git_ref@),
{
    let mut v: Vec<String> = Vec::new();
    push_text(&mut v, owned(git_ref));
    let refs = chars_of("refs/");
    if !starts_with_chars(&chars_of(git_ref), &refs) {
        push_text(&mut v, prefixed("refs/remotes/origin/", git_ref));
        push_text(&mut v, prefixed("refs/heads/", git_ref));
        push_text(&mut v, prefixed("refs/tags/", git_ref));
    }
    assert(texts(v@) =~= ref_candidates(git_ref@));
    v
}

/// A job's working directory: its identifier under the workspace root.
pub open spec fn job_root(config: Config, id: JobId) -> Seq<char> {
    path_join(config.storage.workspace_root@, job_id_text(id@))
}

/// Where a job's log is written: `<job id>.log` under the log root.
pub fn job_log_path(config: &Config, id: &JobId) -> (p: String)
    ensures
        p@ == path_join(config.storage.log_root@, job_id_text(id@) + ".log"@),
{
    let mut log_name = id.to_string();
    log_name.append(".log");
    utf8_path_join(config.storage.log_root.as_str(), log_name.as_str())
}

/// The command that runs a job's build: `sh -c <script>` with the job's
/// `source` and `output` directories under its working directory and the log
/// file `<job id>.log` under the log root. Refused when the build script is.
pub fn runtime_command_for(config: &Config, job: &JobRecord) -> (r: Result<RuntimeCommand, Error>)
    ensures
        match build_script_text(job.request) {
            Ok(script) => r matches Ok(c) && c.program@ == "sh"@ && texts(c.args@) == seq![
                "-c"@,
                script,
            ] && c.source_root@ == path_join(job_root(*config, job.id), "source"@)
                && c.output_root@ == path_join(job_root(*config, job.id), "output"@)
                && c.log_path@ == path_join(
                config.storage.log_root@,
                job_id_text(job.id@) + ".log"@,
            ),
            Err(m) => r matches Err(e) && e matches Error::Config(em) && em@ == m,
        },
{
    let id = job.id.to_string();
    let root = utf8_path_join(config.storage.workspace_root.as_str(), id.as_str());
    let source_root = utf8_path_join(root.as_str(), "source");
    let output_root = utf8_path_join(root.as_str(), "output");
    let log_path = job_log_path(config, &job.id);
    let script = build_script(&job.request)?;
    let mut args: Vec<String> = Vec::new();
    push_text(&mut args, owned("-c"));
    push_text(&mut args, script);
    assert(texts(args@) =~= seq!["-c"@, build_script_text(job.request)->Ok_0]);
    Ok(RuntimeCommand { program: owned("sh"), args, source_root, output_root, log_path })
}

/// The record of an artifact with the given contents: its size and the
/// lowercase hexadecimal SHA-256 of its bytes.
pub fn artifact_record(job_id: JobId, path: String, contents: &[u8]) -> (a: ArtifactRecord)
    ensures
        a.job_id == job_id,
        a.path@ == path@,
        a.kind@ == "kernel-output"@,
        a.bytes == contents@.len(),
        a.sha256@ == hex_bytes(sha256_digest(contents@)),
        a.sha256@.len() == 64,
{
    let digest = sha256(contents);
    let sha256 = hex_of_bytes(digest.as_slice());
    ArtifactRecord {
        job_id,
        path,
        kind: owned("kernel-output"),
        bytes: contents.len() as u64,
        sha256,
    }
}

/// Where an artifact named `file_name` is kept: under the job's directory in
/// the artifact root.
pub open spec fn artifact_dest_path(config: Config, id: JobId, file_name: Seq<char>) -> Seq<char> {
    path_join(path_join(config.storage.artifact_root@, job_id_text(id@)), file_name)
}

pub fn artifact_dest(config: &Config, id: &JobId, file_name: &str) -> (p: String)
    ensures
        p@ == artifact_dest_path(*config, *id, file_name@),
{
    let dir = utf8_path_join(config.storage.artifact_root.as_str(), id.to_string().as_str());
    utf8_path_join(dir.as_str(), file_name)
}

/// The files kept from a job's output, in the order of its artifact
/// patterns: for each pattern, `None` when it names no regular file, or the
/// path the file was kept at and its contents. Patterns that name no file
/// are skipped.
pub open spec fn kept_files(found: Seq<Option<(String, Vec<u8>)>>) -> Seq<(Seq<char>, Seq<u8>)>
    decreases found.len(),
{
    if found.len() == 0 {
        Seq::empty()
    } else {
        let rest = kept_files(found.drop_last());
        match found.last() {
            Some(f) => rest.push((f.0@, f.1@)),
            None => rest,
        }
    }
}

/// Does an artifact record describe a kept file of a job?
pub open spec fn records_file(a: ArtifactRecord, job_id: JobId, file: (Seq<char>, Seq<u8>)) -> bool {
    &&& a.job_id == job_id
    &&& a.path@ == file.0
    &&& a.kind@ == "kernel-output"@
    &&& a.bytes == file.1.len()
    &&& a.sha256@ == hex_bytes(sha256_digest(file.1))
    &&& a.sha256@.len() == 64
}

/// The records of the files kept from a job's output: one per kept file, in
/// pattern order, with its size and SHA-256 digest (64 lowercase hexadecimal
/// digits).
pub fn artifact_records(job_id: JobId, found: &Vec<Option<(String, Vec<u8>)>>) -> (records: Vec<
    ArtifactRecord,
>)
    ensures
        records@.len() == kept_files(found@).len(),
        forall|i: int|
            0 <= i < records@.len() ==> records_file(
                #[trigger] records@[i],
                job_id,
                kept_files(found@)[i],
            ),
{
    let mut records: Vec<ArtifactRecord> = Vec::new();
    let mut i: usize = 0;
    assert(found@.take(0) =~= Seq::<Option<(String, Vec<u8>)>>::empty());
    while i < found.len()
        invariant
            i <= found@.len(),
            records@.len() == kept_files(found@.take(i as int)).len(),
            forall|k: int|
                0 <= k < records@.len() ==> records_file(
                    #[trigger] records@[k],
                    job_id,
                    kept_files(found@.take(i as int))[k],
                ),
        decreases found@.len() - i,
    {
        assert(found@.take(i + 1).drop_last() =~= found@.take(i as int));
        assert(found@.take(i + 1).last() == found@[i as int]);
        match &found[i] {
            Some(file) => {
                let record = artifact_record(job_id, file.0.clone(), file.1.as_slice());
                records.push(record);
            },
            None => {},
        }
        i = i + 1;
    }
    assert(found@.take(i as int) =~= found@);
    records
}

} // verus!
