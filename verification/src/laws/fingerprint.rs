//! What a fingerprint says of a hello.
use vstd::prelude::*;

use crate::fingerprint::{
    extension_codes, features, fingerprint_text, grease_table, key_share_groups, meaningful,
    point_formats, same_fingerprint_iff_same_features,
};
use crate::msgs::{ClientExtension, ClientHelloPayload};
use crate::text::{dashed, decimal, decimal_digits};

verus! {

// The notation

/// The number that a text of digits stands for.
pub open spec fn number(text: Seq<char>) -> int
    decreases text.len(),
{
    if text.len() == 0 {
        0
    } else {
        number(text.drop_last()) * 10 + (text.last() as int - '0' as int)
    }
}

/// Decimal notation stands for the number that it was made of, and has no
/// needless zero in front.
pub proof fn decimal_notation_reads_back(n: nat)
    ensures
        number(decimal(n)) == n,
        n > 0 ==> decimal(n)[0] != '0',
    decreases n,
{
    decimal_digits(n);
    if n >= 10 {
        decimal_notation_reads_back(n / 10);
        decimal_digits(n / 10);
        assert(decimal(n).drop_last() =~= decimal(n / 10));
        assert(decimal(n)[0] == decimal(n / 10)[0]);
    } else {
        assert(decimal(n).drop_last() =~= Seq::<char>::empty());
        assert(number(decimal(n).drop_last()) == 0);
    }
}

/// A list is written number by number: that of one number is the number, and
/// that of two lists in a row is the one, a dash and the other.
pub proof fn lists_are_joined_by_dashes(a: Seq<u64>, b: Seq<u64>, n: u64)
    ensures
        dashed(seq![]) == Seq::<char>::empty(),
        dashed(seq![n]) == decimal(n as nat),
        a.len() > 0 && b.len() > 0 ==> dashed(a + b) == dashed(a) + seq!['-'] + dashed(b),
    decreases b.len(),
{
    if a.len() > 0 && b.len() > 0 {
        let whole = a + b;
        assert(whole.last() == b.last());
        if b.len() == 1 {
            assert(whole.drop_last() =~= a);
            assert(dashed(whole) =~= dashed(a) + seq!['-'] + dashed(b));
        } else {
            assert(whole.drop_last() =~= a + b.drop_last());
            lists_are_joined_by_dashes(a, b.drop_last(), n);
            assert(dashed(whole) =~= dashed(a) + seq!['-'] + dashed(b));
        }
    }
}

// Grease

/// Whether `code` is a grease value: two equal bytes that end in the digit `a`.
pub open spec fn is_grease_value(code: u64) -> bool {
    exists|n: u64| n < 16 && code == 0x0a0a + #[trigger] (n * 0x1010)
}

/// The types that do not count are exactly the grease values.
pub proof fn grease_values_do_not_count(code: u64)
    ensures
        meaningful()(code) <==> !is_grease_value(code),
{
    let table = grease_table();
    assert(forall|n: int| 0 <= n < 16 ==> #[trigger] table[n] == 0x0a0a + n * 0x1010);
    if is_grease_value(code) {
        let n = choose|n: u64| n < 16 && code == 0x0a0a + #[trigger] (n * 0x1010);
        assert(table[n as int] == code);
        assert(table.contains(code as u16));
    }
    if code <= 0xffff && table.contains(code as u16) {
        let n = choose|n: int| 0 <= n < table.len() && table[n] == code as u16;
        let m: u64 = n as u64;
        assert(code == 0x0a0a + m * 0x1010);
    }
}

// The lists

/// The groups are those of the last key share extension, all of them.
pub proof fn key_shares_are_the_last(exts: Seq<ClientExtension>, k: int)
    requires
        -1 <= k < exts.len(),
        k >= 0 ==> exts[k] is KeyShare,
        forall|j: int| k < j < exts.len() ==> !(#[trigger] exts[j] is KeyShare),
    ensures
        k < 0 ==> key_share_groups(exts).len() == 0,
        k >= 0 ==> key_share_groups(exts).len() == exts[k]->KeyShare_0@.len(),
        k >= 0 ==> forall|i: int|
            0 <= i < exts[k]->KeyShare_0@.len() ==> #[trigger] key_share_groups(exts)[i]
                == exts[k]->KeyShare_0@[i].group.code(),
    decreases exts.len(),
{
    if k < exts.len() - 1 {
        assert(!(exts[exts.len() - 1] is KeyShare));
        let front = exts.drop_last();
        assert forall|j: int| k < j < front.len() implies !(#[trigger] front[j] is KeyShare) by {
            assert(front[j] == exts[j]);
        }
        key_shares_are_the_last(front, k);
    }
}

/// The formats are those of the last point format extension, all of them.
pub proof fn point_formats_are_the_last(exts: Seq<ClientExtension>, k: int)
    requires
        -1 <= k < exts.len(),
        k >= 0 ==> exts[k] is ECPointFormats,
        forall|j: int| k < j < exts.len() ==> !(#[trigger] exts[j] is ECPointFormats),
    ensures
        k < 0 ==> point_formats(exts).len() == 0,
        k >= 0 ==> point_formats(exts).len() == exts[k]->ECPointFormats_0@.len(),
        k >= 0 ==> forall|i: int|
            0 <= i < exts[k]->ECPointFormats_0@.len() ==> #[trigger] point_formats(exts)[i]
                == exts[k]->ECPointFormats_0@[i].code(),
    decreases exts.len(),
{
    if k < exts.len() - 1 {
        assert(!(exts[exts.len() - 1] is ECPointFormats));
        let front = exts.drop_last();
        assert forall|j: int| k < j < front.len() implies !(
        #[trigger] front[j] is ECPointFormats) by {
            assert(front[j] == exts[j]);
        }
        point_formats_are_the_last(front, k);
    }
}

/// The types of a hello's extensions, without the grease values.
pub open spec fn telling_types(hello: ClientHelloPayload) -> Seq<u64> {
    hello.extensions@.map_values(|ext: ClientExtension| ext.kind().code() as u64).filter(
        |code: u64| !is_grease_value(code),
    )
}

proof fn telling_types_are_listed(hello: ClientHelloPayload)
    ensures
        features(hello).extensions == telling_types(hello),
{
    let codes = hello.extensions@.map_values(|ext: ClientExtension| ext.kind().code() as u64);
    assert(extension_codes(hello.extensions@) =~= codes);
    let telling = |code: u64| !is_grease_value(code);
    assert forall|code: u64| #[trigger] telling(code) == meaningful()(code) by {
        grease_values_do_not_count(code);
    }
    assert(telling =~= meaningful());
}

// The whole

/// A fingerprint is the version of the hello, all its cipher suites, all types
/// of its extensions but the grease values, all groups of its last key share
/// extension and all formats of its last point format extension, each list
/// joined by dashes and in the client's order, with commas between the five.
pub proof fn fingerprint_reads_the_hello(
    hello: ClientHelloPayload,
    suites: Seq<u64>,
    groups: Seq<u64>,
    formats: Seq<u64>,
    k: int,
    n: int,
)
    requires
        suites.len() == hello.cipher_suites@.len(),
        forall|i: int|
            0 <= i < suites.len() ==> #[trigger] suites[i] == hello.cipher_suites@[i].code(),
        -1 <= k < hello.extensions@.len(),
        forall|j: int|
            k < j < hello.extensions@.len() ==> !(#[trigger] hello.extensions@[j] is KeyShare),
        if k < 0 {
            groups.len() == 0
        } else {
            &&& hello.extensions@[k] is KeyShare
            &&& groups.len() == hello.extensions@[k]->KeyShare_0@.len()
            &&& forall|i: int|
                0 <= i < groups.len() ==> #[trigger] groups[i]
                    == hello.extensions@[k]->KeyShare_0@[i].group.code()
        },
        -1 <= n < hello.extensions@.len(),
        forall|j: int|
            n < j < hello.extensions@.len() ==> !(
            #[trigger] hello.extensions@[j] is ECPointFormats),
        if n < 0 {
            formats.len() == 0
        } else {
            &&& hello.extensions@[n] is ECPointFormats
            &&& formats.len() == hello.extensions@[n]->ECPointFormats_0@.len()
            &&& forall|i: int|
                0 <= i < formats.len() ==> #[trigger] formats[i]
                    == hello.extensions@[n]->ECPointFormats_0@[i].code()
        },
    ensures
        fingerprint_text(hello) == decimal(hello.client_version.code() as nat) + seq![',']
            + dashed(suites) + seq![','] + dashed(telling_types(hello)) + seq![','] + dashed(groups)
            + seq![','] + dashed(formats),
{
    let f = features(hello);
    telling_types_are_listed(hello);
    key_shares_are_the_last(hello.extensions@, k);
    point_formats_are_the_last(hello.extensions@, n);
    assert(f.cipher_suites =~= suites);
    assert(f.key_share =~= groups);
    assert(f.ec_point_formats =~= formats);
    assert(fingerprint_text(hello) =~= decimal(hello.client_version.code() as nat) + seq![',']
        + dashed(suites) + seq![','] + dashed(telling_types(hello)) + seq![','] + dashed(groups)
        + seq![','] + dashed(formats));
}

/// Two hellos with the same fingerprint have versions of the same number and
/// lists of cipher suites of the same numbers: equally many, and the same at
/// every place.
pub proof fn fingerprint_tells_cipher_suites(a: ClientHelloPayload, b: ClientHelloPayload)
    requires
        fingerprint_text(a) == fingerprint_text(b),
    ensures
        a.client_version.code() == b.client_version.code(),
        a.cipher_suites@.len() == b.cipher_suites@.len(),
        forall|i: int|
            0 <= i < a.cipher_suites@.len() ==> (#[trigger] a.cipher_suites@[i]).code()
                == b.cipher_suites@[i].code(),
{
    same_fingerprint_iff_same_features(a, b);
    let fa = features(a).cipher_suites;
    let fb = features(b).cipher_suites;
    assert(fa.len() == a.cipher_suites@.len());
    assert(fb.len() == b.cipher_suites@.len());
    assert forall|i: int| 0 <= i < a.cipher_suites@.len() implies (
    #[trigger] a.cipher_suites@[i]).code() == b.cipher_suites@[i].code() by {
        assert(fa[i] == a.cipher_suites@[i].code());
        assert(fb[i] == b.cipher_suites@[i].code());
    }
}

/// Two hellos with the same fingerprint have extensions of the same types in the
/// same order, the grease values aside.
pub proof fn fingerprint_tells_extensions(a: ClientHelloPayload, b: ClientHelloPayload)
    requires
        fingerprint_text(a) == fingerprint_text(b),
    ensures
        telling_types(a) == telling_types(b),
{
    same_fingerprint_iff_same_features(a, b);
    telling_types_are_listed(a);
    telling_types_are_listed(b);
}

/// Two hellos with the same fingerprint have the same groups, place by place, in
/// their last key share extensions.
pub proof fn fingerprint_tells_key_shares(
    a: ClientHelloPayload,
    b: ClientHelloPayload,
    k: int,
    n: int,
)
    requires
        fingerprint_text(a) == fingerprint_text(b),
        0 <= k < a.extensions@.len(),
        a.extensions@[k] is KeyShare,
        forall|j: int|
            k < j < a.extensions@.len() ==> !(#[trigger] a.extensions@[j] is KeyShare),
        0 <= n < b.extensions@.len(),
        b.extensions@[n] is KeyShare,
        forall|j: int|
            n < j < b.extensions@.len() ==> !(#[trigger] b.extensions@[j] is KeyShare),
    ensures
        a.extensions@[k]->KeyShare_0@.len() == b.extensions@[n]->KeyShare_0@.len(),
        forall|i: int|
            0 <= i < a.extensions@[k]->KeyShare_0@.len() ==> (
            #[trigger] a.extensions@[k]->KeyShare_0@[i]).group.code()
                == b.extensions@[n]->KeyShare_0@[i].group.code(),
{
    same_fingerprint_iff_same_features(a, b);
    key_shares_are_the_last(a.extensions@, k);
    key_shares_are_the_last(b.extensions@, n);
    let fa = features(a).key_share;
    let fb = features(b).key_share;
    assert forall|i: int| 0 <= i < a.extensions@[k]->KeyShare_0@.len() implies (
    #[trigger] a.extensions@[k]->KeyShare_0@[i]).group.code()
        == b.extensions@[n]->KeyShare_0@[i].group.code() by {
        assert(fa[i] == fb[i]);
    }
}

/// Two hellos with the same fingerprint have the same formats, place by place,
/// in their last point format extensions.
pub proof fn fingerprint_tells_point_formats(
    a: ClientHelloPayload,
    b: ClientHelloPayload,
    k: int,
    n: int,
)
    requires
        fingerprint_text(a) == fingerprint_text(b),
        0 <= k < a.extensions@.len(),
        a.extensions@[k] is ECPointFormats,
        forall|j: int|
            k < j < a.extensions@.len() ==> !(#[trigger] a.extensions@[j] is ECPointFormats),
        0 <= n < b.extensions@.len(),
        b.extensions@[n] is ECPointFormats,
        forall|j: int|
            n < j < b.extensions@.len() ==> !(#[trigger] b.extensions@[j] is ECPointFormats),
    ensures
        a.extensions@[k]->ECPointFormats_0@.len() == b.extensions@[n]->ECPointFormats_0@.len(),
        forall|i: int|
            0 <= i < a.extensions@[k]->ECPointFormats_0@.len() ==> (
            #[trigger] a.extensions@[k]->ECPointFormats_0@[i]).code()
                == b.extensions@[n]->ECPointFormats_0@[i].code(),
{
    same_fingerprint_iff_same_features(a, b);
    point_formats_are_the_last(a.extensions@, k);
    point_formats_are_the_last(b.extensions@, n);
    let fa = features(a).ec_point_formats;
    let fb = features(b).ec_point_formats;
    assert forall|i: int| 0 <= i < a.extensions@[k]->ECPointFormats_0@.len() implies (
    #[trigger] a.extensions@[k]->ECPointFormats_0@[i]).code()
        == b.extensions@[n]->ECPointFormats_0@[i].code() by {
        assert(fa[i] == fb[i]);
    }
}

/// What a hello holds besides leaves its fingerprint as it is: its random value,
/// its session, its compression methods, and what its other extensions hold.
pub proof fn fingerprint_heeds_nothing_else(a: ClientHelloPayload, b: ClientHelloPayload)
    requires
        a.client_version == b.client_version,
        a.cipher_suites@ == b.cipher_suites@,
        a.extensions@.len() == b.extensions@.len(),
        forall|i: int|
            #![trigger a.extensions@[i]]
            #![trigger b.extensions@[i]]
            0 <= i < a.extensions@.len() ==> {
                ||| a.extensions@[i] == b.extensions@[i]
                ||| {
                    &&& a.extensions@[i].kind() == b.extensions@[i].kind()
                    &&& !(a.extensions@[i] is KeyShare) && !(b.extensions@[i] is KeyShare)
                    &&& !(a.extensions@[i] is ECPointFormats) && !(
                    b.extensions@[i] is ECPointFormats)
                }
            },
    ensures
        fingerprint_text(a) == fingerprint_text(b),
{
    let x = extension_codes(a.extensions@);
    let y = extension_codes(b.extensions@);
    assert forall|i: int| 0 <= i < x.len() implies x[i] == y[i] by {
        assert(a.extensions@[i].kind() == b.extensions@[i].kind());
    }
    assert(x =~= y);
    same_last_lists(a.extensions@, b.extensions@);
}

proof fn same_last_lists(x: Seq<ClientExtension>, y: Seq<ClientExtension>)
    requires
        x.len() == y.len(),
        forall|i: int|
            #![trigger x[i]]
            #![trigger y[i]]
            0 <= i < x.len() ==> {
                ||| x[i] == y[i]
                ||| {
                    &&& !(x[i] is KeyShare) && !(y[i] is KeyShare)
                    &&& !(x[i] is ECPointFormats) && !(y[i] is ECPointFormats)
                }
            },
    ensures
        key_share_groups(x) == key_share_groups(y),
        point_formats(x) == point_formats(y),
    decreases x.len(),
{
    if x.len() > 0 {
        let last = x.len() - 1;
        assert(x[last] == x.last() && y[last] == y.last());
        assert forall|i: int|
            #![trigger x.drop_last()[i]]
            #![trigger y.drop_last()[i]]
            0 <= i < last implies {
            ||| x.drop_last()[i] == y.drop_last()[i]
            ||| {
                &&& !(x.drop_last()[i] is KeyShare) && !(y.drop_last()[i] is KeyShare)
                &&& !(x.drop_last()[i] is ECPointFormats) && !(y.drop_last()[i] is ECPointFormats)
            }
        } by {
            assert(x.drop_last()[i] == x[i] && y.drop_last()[i] == y[i]);
        }
        same_last_lists(x.drop_last(), y.drop_last());
    }
}

} // verus!
