//! Which messages are taken for a hello, and what is kept of one.
use vstd::prelude::*;

use super::wire::{
    hostname_is_the_first, name_repetition_is_of_type_numbers, no_hostname_without_one,
    repetition_is_of_type_numbers,
};
use crate::client_hello::{
    content_refusal, data_after, form_refusal, hello_refusal, requested_name, sets_name_twice,
};
use crate::conn::{CommonView, DataView};
use crate::dns::{is_dns_name, lower_text};
use crate::enums::{AlertDescription, Compression};
use crate::error::{ErrorView, Refusal};
use crate::msgs::{
    ClientExtension, ClientHelloPayload, HandshakePayload, Message, MessagePayload, ServerName,
};

verus! {

// The form

/// A message is a hello only as a handshake message with the body of one; any
/// other is refused without an alert, for what it is.
pub proof fn only_a_hello_is_taken(m: Message, aligned: bool)
    requires
        match m.payload {
            MessagePayload::Handshake(hs) => !(hs.payload is ClientHello),
            _ => true,
        },
    ensures
        form_refusal(m, aligned) == Some(Refusal { error: m.inappropriate(), alert: None }),
{
}

/// A hello that does not list the null method is refused for that, whatever
/// else it holds.
pub proof fn null_compression_is_a_must(m: Message, hello: ClientHelloPayload, aligned: bool)
    requires
        m.client_hello() == Some(hello),
        forall|k: int|
            0 <= k < hello.compression_methods@.len() ==> #[trigger] hello.compression_methods@[k]
                != Compression::Null,
    ensures
        form_refusal(m, aligned) == Some(
            Refusal {
                error: ErrorView::PeerIncompatibleError("client did not offer Null compression"@),
                alert: Some(AlertDescription::IllegalParameter),
            },
        ),
{
}

/// A hello with two extensions of one type, at whatever two places, is refused
/// for that before its host name or its place in the record counts.
pub proof fn repeated_extensions_are_refused(
    m: Message,
    hello: ClientHelloPayload,
    aligned: bool,
    k: int,
    i: int,
    j: int,
)
    requires
        m.client_hello() == Some(hello),
        0 <= k < hello.compression_methods@.len(),
        hello.compression_methods@[k] == Compression::Null,
        0 <= i < j < hello.extensions@.len(),
        hello.extensions@[i].kind().code() == hello.extensions@[j].kind().code(),
    ensures
        form_refusal(m, aligned) == Some(
            Refusal {
                error: ErrorView::PeerMisbehavedError("client sent duplicate extensions"@),
                alert: Some(AlertDescription::DecodeError),
            },
        ),
{
    assert(hello.compression_methods@.contains(Compression::Null));
}

/// Whether a hello lists the null method and repeats no type of extension.
pub open spec fn sound(hello: ClientHelloPayload) -> bool {
    &&& hello.compression_methods@.contains(Compression::Null)
    &&& hello.extensions@.map_values(|e: ClientExtension| e.kind().code()).no_duplicates()
}

/// A hello that does not end where its record ends is refused for that before
/// its host name counts.
pub proof fn hello_must_end_its_record(m: Message, hello: ClientHelloPayload)
    requires
        m.client_hello() == Some(hello),
        sound(hello),
    ensures
        form_refusal(m, false) == Some(
            Refusal {
                error: ErrorView::PeerMisbehavedError(
                    "key epoch or handshake flight with pending fragment"@,
                ),
                alert: Some(AlertDescription::UnexpectedMessage),
            },
        ),
{
    repetition_is_of_type_numbers(hello);
}

/// A list of names with two of one type is refused for that, whatever the names.
pub proof fn repeated_name_types_are_refused(
    m: Message,
    hello: ClientHelloPayload,
    names: Seq<ServerName>,
    i: int,
    j: int,
)
    requires
        m.client_hello() == Some(hello),
        sound(hello),
        hello.server_names() == Some(names),
        0 <= i < j < names.len(),
        names[i].typ.code() == names[j].typ.code(),
    ensures
        form_refusal(m, true) == Some(
            Refusal {
                error: ErrorView::PeerMisbehavedError(
                    "ClientHello SNI contains duplicate name types"@,
                ),
                alert: Some(AlertDescription::DecodeError),
            },
        ),
{
    repetition_is_of_type_numbers(hello);
}

/// A list of names without a host name, or whose first host name is no DNS name,
/// is refused for that.
pub proof fn list_of_names_must_hold_a_dns_name(
    m: Message,
    hello: ClientHelloPayload,
    names: Seq<ServerName>,
    i: int,
)
    requires
        m.client_hello() == Some(hello),
        sound(hello),
        hello.server_names() == Some(names),
        names.map_values(|n: ServerName| n.typ.code()).no_duplicates(),
        0 <= i <= names.len(),
        forall|j: int| 0 <= j < i ==> (#[trigger] names[j]).payload is Unknown,
        i < names.len() ==> names[i].payload is HostName && !is_dns_name(
            names[i].payload->HostName_0@,
        ),
    ensures
        form_refusal(m, true) == Some(
            Refusal {
                error: ErrorView::PeerMisbehavedError(
                    "ClientHello SNI did not contain a hostname"@,
                ),
                alert: Some(AlertDescription::IllegalParameter),
            },
        ),
{
    repetition_is_of_type_numbers(hello);
    name_repetition_is_of_type_numbers(names);
    if i < names.len() {
        hostname_is_the_first(names, i);
    } else {
        no_hostname_without_one(names);
    }
}

/// A hello that lists the null method, repeats no type of extension and ends its
/// record is well-formed if it has no list of names. It then asks for no name.
pub proof fn hello_without_names_is_well_formed(m: Message, hello: ClientHelloPayload)
    requires
        m.client_hello() == Some(hello),
        sound(hello),
        hello.server_names() is None,
    ensures
        form_refusal(m, true) is None,
        requested_name(hello) is None,
{
    repetition_is_of_type_numbers(hello);
}

/// Such a hello is well-formed too if its list of names repeats no type and its
/// first host name is a DNS name. It then asks for that name, in small letters.
pub proof fn hello_with_a_dns_name_is_well_formed(
    m: Message,
    hello: ClientHelloPayload,
    names: Seq<ServerName>,
    i: int,
)
    requires
        m.client_hello() == Some(hello),
        sound(hello),
        hello.server_names() == Some(names),
        names.map_values(|n: ServerName| n.typ.code()).no_duplicates(),
        0 <= i < names.len(),
        names[i].payload is HostName,
        is_dns_name(names[i].payload->HostName_0@),
        forall|j: int| 0 <= j < i ==> (#[trigger] names[j]).payload is Unknown,
    ensures
        form_refusal(m, true) is None,
        requested_name(hello) == Some(lower_text(names[i].payload->HostName_0@)),
{
    repetition_is_of_type_numbers(hello);
    name_repetition_is_of_type_numbers(names);
    hostname_is_the_first(names, i);
}

// The content

/// A second hello that asks for another name than the connection has, or for one
/// where it has none, or for none where it has one, is refused without an alert.
pub proof fn second_hello_must_ask_for_the_same_name(
    hello: ClientHelloPayload,
    name: Option<Seq<char>>,
    sni: Option<Seq<char>>,
)
    requires
        name != sni,
    ensures
        content_refusal(hello, name, true, sni) == Some(
            Refusal {
                error: ErrorView::PeerIncompatibleError("SNI differed on retry"@),
                alert: None,
            },
        ),
        name is None ==> content_refusal(hello, name, false, sni) == content_refusal(
            hello,
            name,
            true,
            sni,
        ),
{
}

/// A hello without signature schemes is refused for that where its name is not
/// in the way.
pub proof fn signature_schemes_are_a_must(
    hello: ClientHelloPayload,
    name: Option<Seq<char>>,
    done_retry: bool,
    sni: Option<Seq<char>>,
)
    requires
        name == sni || (name is Some && !done_retry),
    ensures
        content_refusal(hello, name, done_retry, sni) == (match hello.signature_schemes() {
            None => Some(
                Refusal {
                    error: ErrorView::PeerIncompatibleError(
                        "client didn't describe signature schemes"@,
                    ),
                    alert: Some(AlertDescription::HandshakeFailure),
                },
            ),
            Some(_) => None,
        }),
{
}

/// What a hello is refused for in its form comes before what it is refused for
/// in its content, and a refusal for the form leaves what is known as it was.
pub proof fn form_comes_before_content(
    m: Message,
    done_retry: bool,
    common: CommonView,
    data: DataView,
)
    ensures
        match form_refusal(m, common.aligned_handshake) {
            Some(refusal) => hello_refusal(m, done_retry, common, data) == Some(refusal)
                && data_after(m, done_retry, common, data) == data,
            None => m.client_hello() is Some && hello_refusal(m, done_retry, common, data)
                == content_refusal(
                m.client_hello()->0,
                requested_name(m.client_hello()->0),
                done_retry,
                data.sni,
            ),
        },
{
}

/// A well-formed hello with signature schemes is accepted if it is the first and
/// asks for a name, or if it asks for the name that the connection has.
pub proof fn well_formed_hello_is_accepted(
    m: Message,
    hello: ClientHelloPayload,
    done_retry: bool,
    common: CommonView,
    data: DataView,
)
    requires
        m.client_hello() == Some(hello),
        form_refusal(m, common.aligned_handshake) is None,
        hello.signature_schemes() is Some,
        (requested_name(hello) is Some && !done_retry) || requested_name(hello) == data.sni,
    ensures
        hello_refusal(m, done_retry, common, data) is None,
{
}

/// A first hello that asks for a name leaves that name with the connection. A
/// second one, or one that asks for no name, leaves the name as it was. Neither
/// touches the fingerprint.
pub proof fn only_a_first_hello_sets_the_name(
    m: Message,
    hello: ClientHelloPayload,
    done_retry: bool,
    common: CommonView,
    data: DataView,
)
    requires
        m.client_hello() == Some(hello),
        form_refusal(m, common.aligned_handshake) is None,
    ensures
        done_retry || requested_name(hello) is None ==> data_after(m, done_retry, common, data).sni
            == data.sni,
        !done_retry && requested_name(hello) is Some ==> data_after(
            m,
            done_retry,
            common,
            data,
        ).sni == requested_name(hello),
        data_after(m, done_retry, common, data).tls_fingerprint == data.tls_fingerprint,
{
}

/// A name is set twice exactly by a well-formed first hello that asks for one on
/// a connection that has one.
pub proof fn name_is_set_twice_iff_kept_and_asked_for(
    m: Message,
    done_retry: bool,
    common: CommonView,
    data: DataView,
)
    ensures
        sets_name_twice(m, done_retry, common, data) <==> {
            &&& !done_retry
            &&& data.sni is Some
            &&& form_refusal(m, common.aligned_handshake) is None
            &&& match m.payload {
                MessagePayload::Handshake(hs) => match hs.payload {
                    HandshakePayload::ClientHello(hello) => hello.server_names() is Some,
                    HandshakePayload::Unknown(_) => false,
                },
                _ => false,
            }
        },
{
}

} // verus!
