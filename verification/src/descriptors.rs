use vstd::prelude::*;

verus! {

/// One configured remote of the repository, as a transport-friendly value
/// record. Fields are optional because the engine may store a name or URL
/// that is absent or not valid UTF-8; absence is preserved rather than
/// collapsed into an empty string.
#[derive(Debug, Clone, PartialEq, Eq)]
pub struct GitRemote {
    pub name: Option<String>,
    pub url: Option<String>,
    pub push_url: Option<String>,
}

/// An author or committer identity attached to a commit snapshot.
#[derive(Debug, Clone, PartialEq, Eq)]
pub struct Contributor {
    pub name: Option<String>,
    pub email: Option<String>,
}

/// Immutable snapshot of one historical commit, value-copied out of the
/// engine's commit object. It has no lifecycle beyond the response that
/// carries it.
#[derive(Debug, Clone, PartialEq, Eq)]
pub struct GitCommit {
    pub id: String,
    pub tree_id: String,
    pub message: Option<String>,
    pub header: Option<String>,
    pub summary: Option<String>,
    pub timestamp: i64,
    pub author: Contributor,
    pub committer: Contributor,
}

/// The characters of an optional string, with absence read as the empty
/// string.
pub open spec fn spec_some_or_empty(val: Option<String>) -> Seq<char> {
    match val {
        Some(v) => v@,
        None => Seq::<char>::empty(),
    }
}

/// The borrowed contents of an optional string, with `None` read as `""`.
pub fn some_or_empty<'a>(val: &'a Option<String>) -> (r: &'a str)
    ensures
        r@ == spec_some_or_empty(*val),
{
    match val {
        Some(v) => v.as_str(),
        None => {
            let empty = "";
            proof {
                reveal_strlit("");
                assert(empty@ =~= Seq::<char>::empty());
            }
            empty
        },
    }
}

impl Contributor {
    /// The characters of `describe`.
    pub open spec fn spec_describe(&self) -> Seq<char> {
        "{ name="@ + spec_some_or_empty(self.name) + ", email="@ + spec_some_or_empty(self.email)
            + " }"@
    }

    /// A one-line rendering of the identity, with absent fields shown empty.
    pub fn describe(&self) -> (r: String)
        ensures
            r@ == self.spec_describe(),
    {
        let s = String::from_str("{ name=")
            .concat(some_or_empty(&self.name))
            .concat(", email=")
            .concat(some_or_empty(&self.email))
            .concat(" }");
        s
    }
}

/// The character for one decimal digit.
pub open spec fn spec_digit_char(d: nat) -> char {
    if d == 0 {
        '0'
    } else if d == 1 {
        '1'
    } else if d == 2 {
        '2'
    } else if d == 3 {
        '3'
    } else if d == 4 {
        '4'
    } else if d == 5 {
        '5'
    } else if d == 6 {
        '6'
    } else if d == 7 {
        '7'
    } else if d == 8 {
        '8'
    } else {
        '9'
    }
}

/// The decimal rendering of a natural number, most significant digit
/// first, with no leading zeros except for zero itself.
pub open spec fn spec_decimal(n: nat) -> Seq<char>
    decreases n,
{
    if n < 10 {
        seq![spec_digit_char(n)]
    } else {
        spec_decimal(n / 10).push(spec_digit_char(n % 10))
    }
}

/// The decimal rendering of a signed number: a minus sign before the
/// magnitude for a negative one.
pub open spec fn spec_i64_decimal(n: int) -> Seq<char> {
    if n >= 0 {
        spec_decimal(n as nat)
    } else {
        seq!['-'] + spec_decimal((-n) as nat)
    }
}

/// The one-character string for a decimal digit.
fn digit_str(d: u64) -> (r: &'static str)
    requires
        d < 10,
    ensures
        r@ == seq![spec_digit_char(d as nat)],
{
    let r: &'static str = if d == 0 {
        "0"
    } else if d == 1 {
        "1"
    } else if d == 2 {
        "2"
    } else if d == 3 {
        "3"
    } else if d == 4 {
        "4"
    } else if d == 5 {
        "5"
    } else if d == 6 {
        "6"
    } else if d == 7 {
        "7"
    } else if d == 8 {
        "8"
    } else {
        "9"
    };
    proof {
        reveal_strlit("0");
        reveal_strlit("1");
        reveal_strlit("2");
        reveal_strlit("3");
        reveal_strlit("4");
        reveal_strlit("5");
        reveal_strlit("6");
        reveal_strlit("7");
        reveal_strlit("8");
        reveal_strlit("9");
        assert(r@ =~= seq![spec_digit_char(d as nat)]);
    }
    r
}

/// Renders an unsigned number in decimal.
pub fn u64_decimal(n: u64) -> (r: String)
    ensures
        r@ == spec_decimal(n as nat),
    decreases n,
{
    if n < 10 {
        String::from_str(digit_str(n))
    } else {
        let mut s = u64_decimal(n / 10);
        s.append(digit_str(n % 10));
        proof {
            assert(s@ =~= spec_decimal(n as nat));
        }
        s
    }
}

/// Renders a signed number in decimal, minus sign included.
pub fn i64_decimal(n: i64) -> (r: String)
    ensures
        r@ == spec_i64_decimal(n as int),
{
    if n >= 0 {
        u64_decimal(n as u64)
    } else {
        // The magnitude is computed without negating `n` itself, which
        // would overflow on the smallest value.
        let magnitude: u64 = ((-(n + 1)) as u64) + 1;
        proof {
            assert(magnitude as nat == (-(n as int)) as nat);
        }
        let mut s = String::from_str("-");
        s.append(u64_decimal(magnitude).as_str());
        proof {
            reveal_strlit("-");
            assert("-"@ =~= seq!['-']);
        }
        s
    }
}

impl GitRemote {
    /// A one-line rendering of the remote, with absent fields shown empty.
    pub fn describe(&self) -> (r: String)
        ensures
            r@ == "{ name="@ + spec_some_or_empty(self.name) + ", url="@
                + spec_some_or_empty(self.url) + ", push_url="@
                + spec_some_or_empty(self.push_url) + " }"@,
    {
        let s = String::from_str("{ name=")
            .concat(some_or_empty(&self.name))
            .concat(", url=")
            .concat(some_or_empty(&self.url))
            .concat(", push_url=")
            .concat(some_or_empty(&self.push_url))
            .concat(" }");
        s
    }
}

impl GitCommit {
    /// A one-line rendering of the whole snapshot, with absent fields
    /// shown empty and both identities rendered as `describe` renders
    /// them.
    pub fn describe(&self) -> (r: String)
        ensures
            r@ == "{ id="@ + self.id@ + ", tree_id="@ + self.tree_id@ + ", timestamp="@
                + spec_i64_decimal(self.timestamp as int) + ", header="@ + spec_some_or_empty(
                self.header,
            ) + ", message="@ + spec_some_or_empty(self.message) + ", summary="@
                + spec_some_or_empty(self.summary) + ", author="@ + self.author.spec_describe()
                + ", committer="@ + self.committer.spec_describe() + " }"@,
    {
        let s = String::from_str("{ id=")
            .concat(self.id.as_str())
            .concat(", tree_id=")
            .concat(self.tree_id.as_str())
            .concat(", timestamp=")
            .concat(i64_decimal(self.timestamp).as_str())
            .concat(", header=")
            .concat(some_or_empty(&self.header))
            .concat(", message=")
            .concat(some_or_empty(&self.message))
            .concat(", summary=")
            .concat(some_or_empty(&self.summary))
            .concat(", author=")
            .concat(self.author.describe().as_str())
            .concat(", committer=")
            .concat(self.committer.describe().as_str())
            .concat(" }");
        s
    }
}

} // verus!
