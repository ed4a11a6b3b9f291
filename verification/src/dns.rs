//! DNS host names as they appear in the `server_name` extension.
use vstd::prelude::*;

verus! {

/// Whether `webpki::DnsNameRef::try_from_ascii` accepts `raw` as the text of a reference DNS name.
pub uninterp spec fn is_dns_name(raw: Seq<u8>) -> bool;

/// An ASCII byte as a character, with `A` to `Z` folded to `a` to `z`.
pub open spec fn ascii_lower(b: u8) -> char {
    if 65 <= b <= 90 {
        (b + 32) as char
    } else {
        b as char
    }
}

/// The text of the DNS name whose ASCII spelling is `raw`.
pub open spec fn lower_text(raw: Seq<u8>) -> Seq<char> {
    raw.map_values(|b: u8| ascii_lower(b))
}

/// Reads `raw` as a DNS name and gives back the name's text.
///
/// Calls `webpki::DnsNameRef::try_from_ascii`, and on success converts the
/// `webpki::DnsNameRef` to a `webpki::DnsName` with `From`. What is taken on
/// trust is that the first depends on the bytes alone, and that the second
/// keeps them but for folding ASCII capitals to small letters. Which byte
/// strings `webpki` accepts is left open: [`is_dns_name`] names them.
#[verifier::external_body]
fn webpki_dns_name(raw: &[u8]) -> (text: Option<String>)
    ensures
        text is Some <==> is_dns_name(raw@),
        text matches Some(t) ==> t@ == lower_text(raw@),
{
    match webpki::DnsNameRef::try_from_ascii(raw) {
        Ok(name) => {
            let owned: webpki::DnsName = name.into();
            Some(<&str>::from(owned.as_ref()).to_string())
        },
        Err(_) => None,
    }
}

/// A syntactically valid DNS name, in small letters.
#[derive(Debug, PartialEq, Eq)]
pub struct DnsName {
    text: String,
}

impl View for DnsName {
    type V = Seq<char>;

    closed spec fn view(&self) -> Seq<char> {
        self.text@
    }
}

/// The text of an optional DNS name.
pub open spec fn opt_text(name: Option<DnsName>) -> Option<Seq<char>> {
    match name {
        Some(n) => Some(n@),
        None => None,
    }
}

/// Whether `text` is how a DNS name is kept.
pub open spec fn is_name_text(text: Seq<char>) -> bool {
    exists|raw: Seq<u8>| is_dns_name(raw) && text == #[trigger] lower_text(raw)
}

impl DnsName {
    #[verifier::type_invariant]
    spec fn inv(self) -> bool {
        is_name_text(self.text@)
    }

    /// Reads `raw` as a DNS name, without regard to the case of its letters.
    pub fn try_from_ascii(raw: &[u8]) -> (name: Option<DnsName>)
        ensures
            name is Some <==> is_dns_name(raw@),
            name matches Some(n) ==> n@ == lower_text(raw@),
    {
        match webpki_dns_name(raw) {
            Some(text) => Some(DnsName { text }),
            None => None,
        }
    }

    /// The name as text.
    pub fn as_str(&self) -> (text: &str)
        ensures
            text@ == self@,
            is_name_text(text@),
    {
        proof {
            use_type_invariant(self);
        }
        self.text.as_str()
    }
}

impl Clone for DnsName {
    fn clone(&self) -> (copy: DnsName)
        ensures
            copy == *self,
    {
        proof {
            use_type_invariant(self);
        }
        DnsName { text: self.text.clone() }
    }
}

/// Whether two optional names are the same.
pub fn same_name(a: &Option<DnsName>, b: &Option<DnsName>) -> (same: bool)
    ensures
        same == (opt_text(*a) == opt_text(*b)),
{
    match (a, b) {
        (Some(x), Some(y)) => x.text == y.text,
        (None, None) => true,
        _ => false,
    }
}

/// Spellings that differ in the case of letters only are of the same name.
pub proof fn spelling_ignores_case(a: Seq<u8>, b: Seq<u8>)
    requires
        a.len() == b.len(),
        forall|i: int|
            0 <= i < a.len() ==> {
                ||| #[trigger] a[i] == b[i]
                ||| 65 <= a[i] <= 90 && b[i] == a[i] + 32
                ||| 65 <= b[i] <= 90 && a[i] == b[i] + 32
            },
    ensures
        lower_text(a) == lower_text(b),
{
    assert forall|i: int| 0 <= i < a.len() implies lower_text(a)[i] == lower_text(b)[i] by {
        assert(a[i] == a[i]);
    }
    assert(lower_text(a) =~= lower_text(b));
}

} // verus!
