use vstd::prelude::*;

use uuid::Uuid;

use crate::error::Error;
use crate::text::{chars_of, has_prefix, hex_char, hex_digit, push_char};

verus! {

/// The `i`-th hexadecimal digit of `v`, counting from the most significant.
pub open spec fn nibble(v: u128, i: int) -> int {
    ((v >> (((31 - i) * 4) as u32)) & 0xfu128) as int
}

/// The 32 lowercase hexadecimal digits of `v`, most significant first (the
/// "simple" text form of a UUID).
pub open spec fn simple_hex(v: u128) -> Seq<char> {
    Seq::new(32, |i: int| hex_digit(nibble(v, i)))
}

/// The text form of a job identifier: `job_` followed by the simple form.
pub open spec fn job_id_text(v: u128) -> Seq<char> {
    "job_"@ + simple_hex(v)
}

/// What `uuid::Uuid::parse_str` gives for a text, as a 128-bit value.
pub uninterp spec fn uuid_text_value(s: Seq<char>) -> Option<u128>;

/// The version field of a UUID held as a big-endian 128-bit value (the high
/// nibble of its seventh byte).
pub open spec fn uuid_version(v: u128) -> u128 {
    (v >> 76u32) & 0xfu128
}

/// The two variant bits of a UUID held as a big-endian 128-bit value (the
/// top bits of its ninth byte); `0b10` is the RFC 9562 variant.
pub open spec fn uuid_variant(v: u128) -> u128 {
    (v >> 62u32) & 0x3u128
}

/// A fresh version 7 UUID.
///
/// Trusted: wraps `Uuid::now_v7` and `Uuid::as_u128`. The timestamp and
/// random bits depend on the clock and a random source, so they are left
/// unstated; what every outcome keeps is what uuid's encoder writes: the
/// version field 7 and the RFC 9562 variant bits `0b10`.
#[verifier::external_body]
fn uuid_now_v7() -> (r: u128)
    ensures
        uuid_version(r) == 7,
        uuid_variant(r) == 2,
{
    Uuid::now_v7().as_u128()
}

/// Parses a UUID from text.
///
/// Trusted: wraps `Uuid::parse_str` and `Uuid::as_u128`. The result is named
/// by `uuid_text_value`; the error is uuid's own message. The one fact
/// stated of the accepted forms is the one the parser's source shows for
/// 32 hexadecimal digits: they are read as the big-endian value.
#[verifier::external_body]
fn uuid_parse(s: &str) -> (r: Result<u128, String>)
    ensures
        r is Ok <==> uuid_text_value(s@) is Some,
        r is Ok ==> uuid_text_value(s@) == Some(r->Ok_0),
        forall|v: u128| #[trigger] simple_hex(v) == s@ ==> (r is Ok && r->Ok_0 == v),
{
    match Uuid::parse_str(s) {
        Ok(u) => Ok(u.as_u128()),
        Err(e) => Err(e.to_string()),
    }
}

/// Identifier of a build job.
#[derive(Debug, Clone, Copy, PartialEq, Eq, Hash, Structural)]
pub struct JobId(u128);

impl View for JobId {
    type V = u128;

    closed spec fn view(&self) -> u128 {
        self.0
    }
}

/// The text that `JobId::parse` reads as a UUID: what follows `job_`.
pub open spec fn job_id_body(s: Seq<char>) -> Seq<char> {
    s.skip(4)
}

/// Does the text start with `job_`?
pub open spec fn has_job_prefix(s: Seq<char>) -> bool {
    s.len() >= 4 && s[0] == 'j' && s[1] == 'o' && s[2] == 'b' && s[3] == '_'
}

/// The identifier that `JobId::parse` reads from a text, if any.
pub open spec fn job_id_of_text(s: Seq<char>) -> Option<u128> {
    if has_job_prefix(s) {
        uuid_text_value(job_id_body(s))
    } else {
        None
    }
}

impl JobId {
    /// A fresh identifier from a time-ordered (version 7) UUID.
    pub fn new() -> (id: Self)
        ensures
            uuid_version(id@) == 7,
            uuid_variant(id@) == 2,
    {
        JobId(uuid_now_v7())
    }

    pub fn from_u128(value: u128) -> (id: Self)
        ensures
            id@ == value,
    {
        JobId(value)
    }

    pub fn as_u128(&self) -> (value: u128)
        ensures
            value == self@,
    {
        self.0
    }

    /// `job_` followed by 32 lowercase hexadecimal digits.
    pub fn to_string(&self) -> (text: String)
        ensures
            text@ == job_id_text(self@),
    {
        let v = self.0;
        let mut text = String::from_str("job_");
        let ghost start = text@;
        let mut i: usize = 0;
        while i < 32
            invariant
                i <= 32,
                start == "job_"@,
                v == self@,
                text@ == start + simple_hex(v).take(i as int),
            decreases 32 - i,
        {
            let shift: u32 = ((31 - i) * 4) as u32;
            let x: u128 = v >> shift;
            let d128: u128 = x & 0xfu128;
            assert(d128 <= 15) by (bit_vector)
                requires
                    d128 == x & 0xfu128,
            ;
            let d: u8 = d128 as u8;
            let c = hex_char(d);
            assert(c == hex_digit(nibble(v, i as int)));
            push_char(&mut text, c);
            i = i + 1;
            assert(simple_hex(v).take(i as int) =~= simple_hex(v).take(i - 1).push(c));
        }
        assert(simple_hex(v).take(32) =~= simple_hex(v));
        text
    }

    /// Reads an identifier in the form that `to_string` writes; the part after
    /// `job_` may be any text form that `uuid::Uuid::parse_str` accepts.
    pub fn parse(value: &str) -> (r: Result<JobId, Error>)
        ensures
            r is Ok <==> job_id_of_text(value@) is Some,
            r matches Ok(id) ==> Some(id@) == job_id_of_text(value@),
            r matches Err(e) ==> e is Config,
            has_job_prefix(value@) ==> (r matches Err(e) ==> e matches Error::Config(m)
                && has_prefix(m@, "invalid job id: "@)),
            !has_job_prefix(value@) ==> (r matches Err(e) && e matches Error::Config(m)
                && m@ == "job id must start with job_"@),
            forall|v: u128| #[trigger] job_id_text(v) == value@ ==> (r matches Ok(id) && id@ == v),
    {
        let chars = chars_of(value);
        if !(chars.len() >= 4 && chars[0] == 'j' && chars[1] == 'o' && chars[2] == 'b' && chars[3]
            == '_') {
            proof {
                reveal_strlit("job_");
            }
            return Err(Error::Config(String::from_str("job id must start with job_")));
        }
        let body = value.substring_char(4, chars.len());
        assert(body@ =~= job_id_body(value@));
        proof {
            reveal_strlit("job_");
            assert forall|v: u128| #[trigger] job_id_text(v) == value@ implies simple_hex(v)
                == body@ by {
                assert(job_id_text(v).skip(4) =~= simple_hex(v));
            }
        }
        match uuid_parse(body) {
            Ok(v) => Ok(JobId(v)),
            Err(detail) => {
                let mut m = String::from_str("invalid job id: ");
                m.append(detail.as_str());
                proof {
                    reveal_strlit("invalid job id: ");
                }
                assert(m@.take(16) =~= "invalid job id: "@);
                Err(Error::Config(m))
            },
        }
    }
}

impl Default for JobId {
    fn default() -> (id: Self)
        ensures
            uuid_version(id@) == 7,
            uuid_variant(id@) == 2,
    {
        JobId::new()
    }
}

impl std::str::FromStr for JobId {
    type Err = Error;

    fn from_str(value: &str) -> (r: Result<Self, Self::Err>)
        ensures
            r is Ok <==> job_id_of_text(value@) is Some,
            r matches Ok(id) ==> Some(id@) == job_id_of_text(value@),
            r matches Err(e) ==> e is Config,
            forall|v: u128| #[trigger] job_id_text(v) == value@ ==> (r matches Ok(id) && id@ == v),
    {
        JobId::parse(value)
    }
}

} // verus!
