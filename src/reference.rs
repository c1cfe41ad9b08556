//! Image references of the form `name[:tag]`.
use vstd::prelude::*;

verus! {

/// The character that separates an image name from its tag.
pub open spec fn is_sep(c: char) -> bool {
    c == ':'
}

/// The segment of `s` before its first separator (all of `s` when there is none).
pub open spec fn segment(s: Seq<char>) -> Seq<char>
    decreases s.len(),
{
    if s.len() == 0 {
        s
    } else if is_sep(s[0]) {
        Seq::empty()
    } else {
        seq![s[0]] + segment(s.drop_first())
    }
}

/// The image name of a reference: everything before the first separator.
pub open spec fn reference_name(s: Seq<char>) -> Seq<char> {
    segment(s)
}

/// The tag of a reference: the segment after the first separator, or
/// `latest` when the reference has no separator.
pub open spec fn reference_tag(s: Seq<char>) -> Seq<char> {
    if s.contains(':') {
        segment(s.skip(segment(s).len() as int + 1))
    } else {
        "latest"@
    }
}

/// An image to pull: its repository name and its tag.
pub struct ImageReference {
    pub name: String,
    pub tag: String,
}

proof fn lemma_segment_no_sep(s: Seq<char>)
    requires
        !s.contains(':'),
    ensures
        segment(s) == s,
    decreases s.len(),
{
    if s.len() > 0 {
        assert(s[0] != ':') by {
            assert(s.contains(s[0]));
        }
        assert(!s.drop_first().contains(':')) by {
            if s.drop_first().contains(':') {
                let k = choose|k: int| 0 <= k < s.drop_first().len() && s.drop_first()[k] == ':';
                assert(s[k + 1] == ':');
            }
        }
        lemma_segment_no_sep(s.drop_first());
        assert(s == seq![s[0]] + s.drop_first());
    }
}

proof fn lemma_segment_before_sep(a: Seq<char>, b: Seq<char>)
    requires
        !a.contains(':'),
    ensures
        segment(a + seq![':'] + b) == a,
    decreases a.len(),
{
    let s = a + seq![':'] + b;
    if a.len() == 0 {
        assert(s[0] == ':');
    } else {
        assert(a.contains(a[0]));
        assert(s[0] == a[0]);
        assert(!a.drop_first().contains(':')) by {
            if a.drop_first().contains(':') {
                let k = choose|k: int| 0 <= k < a.drop_first().len() && a.drop_first()[k] == ':';
                assert(a[k + 1] == ':');
            }
        }
        lemma_segment_before_sep(a.drop_first(), b);
        assert(s.drop_first() == a.drop_first() + seq![':'] + b);
        assert(a == seq![a[0]] + a.drop_first());
    }
}

/// The parts of a reference with one separator are exactly the text before
/// and after it; a reference without a separator names the `latest` tag.
pub proof fn lemma_reference_parts(a: Seq<char>, b: Seq<char>)
    requires
        !a.contains(':'),
        !b.contains(':'),
    ensures
        reference_name(a + seq![':'] + b) == a,
        reference_tag(a + seq![':'] + b) == b,
        reference_name(a) == a,
        reference_tag(a) == "latest"@,
{
    let s = a + seq![':'] + b;
    lemma_segment_before_sep(a, b);
    assert(s[a.len() as int] == ':');
    assert(s.contains(':'));
    assert(s.skip(a.len() as int + 1) == b);
    lemma_segment_no_sep(b);
    lemma_segment_no_sep(a);
}

/// Relies on `str::split_once`: splits at the first `:`, or gives `None`
/// when there is none.
#[verifier::external_body]
fn split_at_sep(s: &str) -> (r: Option<(&str, &str)>)
    ensures
        r is None <==> !s@.contains(':'),
        r matches Some((a, b)) ==> s@ == a@ + seq![':'] + b@ && !a@.contains(':'),
{
    s.split_once(':')
}

/// Parses `name[:tag]`; the tag is the text between the first separator and
/// the next one (or the end), and `latest` when there is no separator.
pub fn parse_image_reference(s: &str) -> (r: ImageReference)
    ensures
        r.name@ == reference_name(s@),
        r.tag@ == reference_tag(s@),
{
    match split_at_sep(s) {
        None => {
            proof {
                lemma_segment_no_sep(s@);
            }
            ImageReference { name: s.to_owned(), tag: "latest".to_owned() }
        },
        Some((a, rest)) => {
            proof {
                lemma_segment_before_sep(a@, rest@);
                assert(s@[a@.len() as int] == ':');
                assert(s@.contains(':'));
                assert(s@.skip(a@.len() as int + 1) == rest@);
            }
            let tag = match split_at_sep(rest) {
                None => {
                    proof {
                        lemma_segment_no_sep(rest@);
                    }
                    rest.to_owned()
                },
                Some((t, more)) => {
                    proof {
                        lemma_segment_before_sep(t@, more@);
                    }
                    t.to_owned()
                },
            };
            ImageReference { name: a.to_owned(), tag }
        },
    }
}

} // verus!
