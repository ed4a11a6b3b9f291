//! The fingerprint of a client: a text made of what its hello lists.
use vstd::prelude::*;

use crate::enums::{CipherSuite, ECPointFormat};
use crate::msgs::{ClientExtension, ClientHelloPayload, KeyShareEntry};
use crate::seqs::filter_step;
use crate::text::{
    dashed, dashed_characters, dashed_injective, decimal, decimal_digits, decimal_injective,
    push_decimal, split_at_first, stringy,
};

verus! {

/// The values that clients send only to keep servers from rejecting what they
/// do not know.
pub open spec fn grease_table() -> Seq<u16> {
    seq![
        0x0a0au16, 0x1a1au16, 0x2a2au16, 0x3a3au16, 0x4a4au16, 0x5a5au16, 0x6a6au16, 0x7a7au16,
        0x8a8au16, 0x9a9au16, 0xaaaau16, 0xbabau16, 0xcacau16, 0xdadau16, 0xeaeau16, 0xfafau16,
    ]
}

/// The extension types that count: those outside the table of grease values.
pub open spec fn meaningful() -> spec_fn(u64) -> bool {
    |code: u64| !(code <= 0xffff && grease_table().contains(code as u16))
}

/// The client's cipher suites, in order.
pub open spec fn suite_codes(suites: Seq<CipherSuite>) -> Seq<u64> {
    suites.map_values(|suite: CipherSuite| suite.code() as u64)
}

/// The types of the client's extensions, in order.
pub open spec fn extension_codes(exts: Seq<ClientExtension>) -> Seq<u64> {
    exts.map_values(|ext: ClientExtension| ext.kind().code() as u64)
}

/// The groups of a client's key shares, in order.
pub open spec fn group_codes(shares: Seq<KeyShareEntry>) -> Seq<u64> {
    shares.map_values(|share: KeyShareEntry| share.group.code() as u64)
}

/// A client's point formats, in order.
pub open spec fn format_codes(formats: Seq<ECPointFormat>) -> Seq<u64> {
    formats.map_values(|format: ECPointFormat| format.code() as u64)
}

/// The groups in the last key share extension, if there is one.
pub open spec fn key_share_groups(exts: Seq<ClientExtension>) -> Seq<u64>
    decreases exts.len(),
{
    if exts.len() == 0 {
        seq![]
    } else {
        match exts.last() {
            ClientExtension::KeyShare(shares) => group_codes(shares@),
            _ => key_share_groups(exts.drop_last()),
        }
    }
}

/// The formats in the last point format extension, if there is one.
pub open spec fn point_formats(exts: Seq<ClientExtension>) -> Seq<u64>
    decreases exts.len(),
{
    if exts.len() == 0 {
        seq![]
    } else {
        match exts.last() {
            ClientExtension::ECPointFormats(formats) => format_codes(formats@),
            _ => point_formats(exts.drop_last()),
        }
    }
}

/// What a fingerprint is made of.
#[verifier::ext_equal]
pub struct Features {
    pub version: u16,
    pub cipher_suites: Seq<u64>,
    pub extensions: Seq<u64>,
    pub key_share: Seq<u64>,
    pub ec_point_formats: Seq<u64>,
}

/// What the fingerprint of `hello` is made of.
pub open spec fn features(hello: ClientHelloPayload) -> Features {
    Features {
        version: hello.client_version.code(),
        cipher_suites: suite_codes(hello.cipher_suites@),
        extensions: extension_codes(hello.extensions@).filter(meaningful()),
        key_share: key_share_groups(hello.extensions@),
        ec_point_formats: point_formats(hello.extensions@),
    }
}

/// The version and the four lists, with a comma between each two.
pub open spec fn feature_text(f: Features) -> Seq<char> {
    decimal(f.version as nat).push(',') + (dashed(f.cipher_suites).push(',') + (dashed(
        f.extensions,
    ).push(',') + (dashed(f.key_share).push(',') + dashed(f.ec_point_formats))))
}

/// The fingerprint of `hello`.
pub open spec fn fingerprint_text(hello: ClientHelloPayload) -> Seq<char> {
    feature_text(features(hello))
}

/// Whether `code` is in the table of grease values.
fn is_grease(code: u16) -> (found: bool)
    ensures
        found == grease_table().contains(code),
{
    let table: [u16; 16] = [
        0x0a0a, 0x1a1a, 0x2a2a, 0x3a3a, 0x4a4a, 0x5a5a, 0x6a6a, 0x7a7a, 0x8a8a, 0x9a9a, 0xaaaa,
        0xbaba, 0xcaca, 0xdada, 0xeaea, 0xfafa,
    ];
    assert(table@ =~= grease_table());
    let mut i: usize = 0;
    while i < 16
        invariant
            i <= 16,
            table@ == grease_table(),
            forall|j: int| 0 <= j < i ==> table@[j] != code,
        decreases 16 - i,
    {
        if table[i] == code {
            assert(grease_table()[i as int] == code);
            return true;
        }
        i = i + 1;
    }
    false
}

/// The client's cipher suites, in order.
fn list_suites(suites: &Vec<CipherSuite>) -> (codes: Vec<u64>)
    ensures
        codes@ == suite_codes(suites@),
{
    let mut codes: Vec<u64> = Vec::new();
    let mut i: usize = 0;
    while i < suites.len()
        invariant
            i <= suites@.len(),
            codes@ == suite_codes(suites@).take(i as int),
        decreases suites@.len() - i,
    {
        codes.push(suites[i].get_u16() as u64);
        i = i + 1;
        assert(codes@ =~= suite_codes(suites@).take(i as int));
    }
    assert(codes@ =~= suite_codes(suites@));
    codes
}

/// The types of the client's extensions without the grease values, in order.
fn list_extensions(exts: &Vec<ClientExtension>) -> (codes: Vec<u64>)
    ensures
        codes@ == extension_codes(exts@).filter(meaningful()),
{
    let ghost all = extension_codes(exts@);
    let mut codes: Vec<u64> = Vec::new();
    let mut i: usize = 0;
    proof {
        reveal(Seq::filter);
        assert(all.take(0) =~= Seq::empty());
    }
    while i < exts.len()
        invariant
            i <= exts@.len(),
            all == extension_codes(exts@),
            codes@ == all.take(i as int).filter(meaningful()),
        decreases exts@.len() - i,
    {
        proof {
            filter_step(all, meaningful(), i as int);
        }
        let code: u16 = exts[i].get_type().get_u16();
        if !is_grease(code) {
            codes.push(code as u64);
        }
        i = i + 1;
    }
    assert(all.take(all.len() as int) =~= all);
    codes
}

/// The groups of a client's key shares, in order.
fn list_groups(shares: &Vec<KeyShareEntry>) -> (codes: Vec<u64>)
    ensures
        codes@ == group_codes(shares@),
{
    let mut codes: Vec<u64> = Vec::new();
    let mut i: usize = 0;
    while i < shares.len()
        invariant
            i <= shares@.len(),
            codes@ == group_codes(shares@).take(i as int),
        decreases shares@.len() - i,
    {
        codes.push(shares[i].group.get_u16() as u64);
        i = i + 1;
        assert(codes@ =~= group_codes(shares@).take(i as int));
    }
    assert(codes@ =~= group_codes(shares@));
    codes
}

/// A client's point formats, in order.
fn list_formats(formats: &Vec<ECPointFormat>) -> (codes: Vec<u64>)
    ensures
        codes@ == format_codes(formats@),
{
    let mut codes: Vec<u64> = Vec::new();
    let mut i: usize = 0;
    while i < formats.len()
        invariant
            i <= formats@.len(),
            codes@ == format_codes(formats@).take(i as int),
        decreases formats@.len() - i,
    {
        codes.push(formats[i].get_u8() as u64);
        i = i + 1;
        assert(codes@ =~= format_codes(formats@).take(i as int));
    }
    assert(codes@ =~= format_codes(formats@));
    codes
}

/// The fingerprint of a client: the version of its hello, its cipher suites,
/// its extensions without the grease values, the groups of its key shares and
/// its point formats, with commas between these five and dashes inside them.
pub fn fingerprint(hello: &ClientHelloPayload) -> (text: String)
    ensures
        text@ == fingerprint_text(*hello),
{
    let cipher_suites: String = stringy(&list_suites(&hello.cipher_suites));
    let extensions: String = stringy(&list_extensions(&hello.extensions));
    let mut key_share: String = String::new();
    let mut ec_point_formats: String = String::new();

    let exts = &hello.extensions;
    let mut i: usize = 0;
    assert(exts@.take(0) =~= Seq::empty());
    while i < exts.len()
        invariant
            i <= exts@.len(),
            key_share@ == dashed(key_share_groups(exts@.take(i as int))),
            ec_point_formats@ == dashed(point_formats(exts@.take(i as int))),
        decreases exts@.len() - i,
    {
        assert(exts@.take(i + 1).drop_last() =~= exts@.take(i as int));
        assert(exts@.take(i + 1).last() == exts@[i as int]);
        match &exts[i] {
            ClientExtension::KeyShare(shares) => {
                key_share = stringy(&list_groups(shares));
            },
            ClientExtension::ECPointFormats(formats) => {
                ec_point_formats = stringy(&list_formats(formats));
            },
            _ => {},
        }
        i = i + 1;
    }
    assert(exts@.take(exts@.len() as int) =~= exts@);

    proof {
        reveal_strlit(",");
        assert(","@ =~= seq![',']);
    }
    let mut text: String = String::new();
    push_decimal(&mut text, hello.client_version.get_u16() as u64);
    text.append(",");
    text.append(cipher_suites.as_str());
    text.append(",");
    text.append(extensions.as_str());
    text.append(",");
    text.append(key_share.as_str());
    text.append(",");
    text.append(ec_point_formats.as_str());
    assert(text@ =~= fingerprint_text(*hello));
    text
}

/// A list joined by dashes has no comma in it.
proof fn no_comma(list: Seq<u64>)
    ensures
        !dashed(list).contains(','),
{
    dashed_characters(list);
}

/// The text tells versions and lists apart.
proof fn feature_text_injective(f: Features, g: Features)
    requires
        feature_text(f) == feature_text(g),
    ensures
        f == g,
{
    decimal_digits(f.version as nat);
    decimal_digits(g.version as nat);
    no_comma(f.cipher_suites);
    no_comma(g.cipher_suites);
    no_comma(f.extensions);
    no_comma(g.extensions);
    no_comma(f.key_share);
    no_comma(g.key_share);
    let f4 = dashed(f.ec_point_formats);
    let g4 = dashed(g.ec_point_formats);
    let f3 = dashed(f.key_share).push(',') + f4;
    let g3 = dashed(g.key_share).push(',') + g4;
    let f2 = dashed(f.extensions).push(',') + f3;
    let g2 = dashed(g.extensions).push(',') + g3;
    let f1 = dashed(f.cipher_suites).push(',') + f2;
    let g1 = dashed(g.cipher_suites).push(',') + g2;
    split_at_first(decimal(f.version as nat), f1, decimal(g.version as nat), g1, ',');
    split_at_first(dashed(f.cipher_suites), f2, dashed(g.cipher_suites), g2, ',');
    split_at_first(dashed(f.extensions), f3, dashed(g.extensions), g3, ',');
    split_at_first(dashed(f.key_share), f4, dashed(g.key_share), g4, ',');
    decimal_injective(f.version as nat, g.version as nat);
    dashed_injective(f.cipher_suites, g.cipher_suites);
    dashed_injective(f.extensions, g.extensions);
    dashed_injective(f.key_share, g.key_share);
    dashed_injective(f.ec_point_formats, g.ec_point_formats);
}

/// Two clients have the same fingerprint exactly if their hellos agree in the
/// version, the cipher suites, the extension types other than grease values,
/// the groups of the key shares, and the point formats, each in order.
pub proof fn same_fingerprint_iff_same_features(a: ClientHelloPayload, b: ClientHelloPayload)
    ensures
        fingerprint_text(a) == fingerprint_text(b) <==> features(a) == features(b),
{
    if fingerprint_text(a) == fingerprint_text(b) {
        feature_text_injective(features(a), features(b));
    }
}

proof fn last_lists_skip(front: Seq<ClientExtension>, ext: ClientExtension, back: Seq<ClientExtension>)
    requires
        !(ext is KeyShare),
        !(ext is ECPointFormats),
    ensures
        key_share_groups(front.push(ext) + back) == key_share_groups(front + back),
        point_formats(front.push(ext) + back) == point_formats(front + back),
    decreases back.len(),
{
    let with = front.push(ext) + back;
    let without = front + back;
    if back.len() == 0 {
        assert(with =~= front.push(ext));
        assert(without =~= front);
        assert(front.push(ext).drop_last() =~= front);
    } else {
        last_lists_skip(front, ext, back.drop_last());
        assert(with.drop_last() =~= front.push(ext) + back.drop_last());
        assert(without.drop_last() =~= front + back.drop_last());
        assert(with.last() == back.last());
        assert(without.last() == back.last());
    }
}

/// An extension whose type is a grease value leaves the fingerprint as it is,
/// wherever the client puts it.
pub proof fn grease_extension_is_ignored(
    hello: ClientHelloPayload,
    greased: ClientHelloPayload,
    front: Seq<ClientExtension>,
    ext: ClientExtension,
    back: Seq<ClientExtension>,
)
    requires
        grease_table().contains(ext.kind().code()),
        hello.extensions@ == front + back,
        greased.extensions@ == front.push(ext) + back,
        hello.client_version == greased.client_version,
        hello.cipher_suites@ == greased.cipher_suites@,
    ensures
        fingerprint_text(greased) == fingerprint_text(hello),
{
    assert(!(ext is KeyShare) && !(ext is ECPointFormats));
    last_lists_skip(front, ext, back);
    let code = ext.kind().code() as u64;
    let f = extension_codes(front);
    let b = extension_codes(back);
    assert(extension_codes(front + back) =~= f + b);
    assert(extension_codes(front.push(ext) + back) =~= f + seq![code] + b);
    Seq::filter_distributes_over_add(f, b, meaningful());
    Seq::filter_distributes_over_add(f + seq![code], b, meaningful());
    Seq::filter_distributes_over_add(f, seq![code], meaningful());
    let one = seq![code];
    assert(one.filter(meaningful()) =~= seq![]) by {
        reveal(Seq::filter);
        filter_step(one, meaningful(), 0);
        assert(one.take(1) =~= one);
        assert(one.take(0) =~= seq![]);
        assert(!meaningful()(code));
    }
    assert((f + one).filter(meaningful()) =~= f.filter(meaningful()));
}

} // verus!
