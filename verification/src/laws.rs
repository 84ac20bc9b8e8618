//! What holds of the boundary calls taken together, proved from the
//! definitions that their contracts use.

use crate::address::{network_result, parsed_network, SocketAddress};
use crate::error::{channel_after, stored_length, ErrorKind, ErrorView};
use crate::log::log_report;
use crate::mapping::{
    lemma_accepted_prefix, lemma_first_rejected, marshalled_prefix, NativeView, PortMapping,
    PortMappings,
};
use crate::port::{
    add_consulted, add_is_valid, add_reaches_service, add_report, add_request, container_id,
    created_handle, created_outcome, destroy_result, new_report, remove_reaches_service,
    remove_report, storage_path, ServiceFailure,
};
use crate::text::text_of;
use vstd::prelude::*;
use vstd::utf8::encode_utf8;

verus! {

/// Whether an outcome is a failure that leaves a message of at least one byte
/// in the channel.
pub open spec fn is_reported(outcome: Result<(), ErrorView>) -> bool {
    outcome is Err && stored_length(channel_after(outcome)) > 0
}

/// Whether an outcome is an invalid argument that leaves a message of at
/// least one byte in the channel.
pub open spec fn is_invalid_argument(outcome: Result<(), ErrorView>) -> bool {
    is_reported(outcome) && outcome->Err_0.kind == ErrorKind::InvalidArgument
}

/// A message of at least one character takes at least one byte.
pub proof fn lemma_message_has_length(message: Seq<char>)
    requires
        message.len() > 0,
    ensures
        stored_length(Some(message)) > 0,
{
    let first = vstd::utf8::encode_scalar(message[0] as u32);
    assert(first.len() > 0);
    assert(encode_utf8(message) == first + encode_utf8(message.drop_first()));
}

/// Every failure of a record has a message.
pub proof fn lemma_record_failure_has_message(record: PortMapping, host: Option<SocketAddress>)
    requires
        record.marshalled(host) is Err,
    ensures
        record.marshalled(host)->Err_0.message.len() > 0,
{
    reveal_strlit("port mapping host IP is NULL");
    reveal_strlit("convert host IP string");
    reveal_strlit("parse socket address ");
    reveal_strlit("port mapping protocol is NULL");
    reveal_strlit("convert protocol string");
    reveal_strlit("parse protocol ");
}

/// Every failure of a batch has a message.
pub proof fn lemma_batch_failure_has_message(
    batch: PortMappings,
    hosts: Seq<Option<SocketAddress>>,
)
    requires
        batch.marshalled(hosts) is Err,
    ensures
        batch.marshalled(hosts)->Err_0.message.len() > 0,
{
    reveal_strlit("provided port mappings array is NULL");
    reveal_strlit("provided port mappings length exceeds the array");
    if batch.records() is Ok {
        let records = batch.records()->Ok_0;
        lemma_prefix_failure_has_message(records, hosts, records.len());
    }
}

/// Every failure among the first `n` records has a message.
pub proof fn lemma_prefix_failure_has_message(
    records: Seq<PortMapping>,
    hosts: Seq<Option<SocketAddress>>,
    n: nat,
)
    requires
        marshalled_prefix(records, hosts, n) is Err,
    ensures
        marshalled_prefix(records, hosts, n)->Err_0.message.len() > 0,
    decreases n,
{
    if n > 0 {
        if marshalled_prefix(records, hosts, (n - 1) as nat) is Err {
            lemma_prefix_failure_has_message(records, hosts, (n - 1) as nat);
        } else {
            lemma_record_failure_has_message(records[n - 1], hosts[n - 1]);
        }
    }
}

/// Every failure that an add reports leaves a message of at least one byte.
pub proof fn lemma_add_failure_is_reported(
    present: bool,
    id: Option<Seq<u8>>,
    container_network: Option<Seq<u8>>,
    port_mappings: Option<PortMappings>,
    hosts: Seq<Option<SocketAddress>>,
    service: Result<(), ServiceFailure>,
)
    requires
        add_report(present, id, container_network, port_mappings, hosts, service) is Err,
    ensures
        is_reported(add_report(present, id, container_network, port_mappings, hosts, service)),
{
    reveal_strlit("provided port manager is NULL");
    reveal_strlit("provided ID is NULL");
    reveal_strlit("provided container network is NULL");
    reveal_strlit("provided port mappings are NULL");
    reveal_strlit("convert container network string");
    reveal_strlit("convert ID string");
    reveal_strlit("parse container network ");
    reveal_strlit("add port mappings");
    let outcome = add_report(present, id, container_network, port_mappings, hosts, service);
    if present && id is Some && container_network is Some && port_mappings is Some {
        if port_mappings->Some_0.marshalled(hosts) is Err {
            lemma_batch_failure_has_message(port_mappings->Some_0, hosts);
        }
    }
    lemma_message_has_length(outcome->Err_0.message);
}

/// An absent level is reported by an init as an invalid argument, whether or
/// not a logger could have been installed.
pub proof fn lemma_absent_level_is_reported(installed: bool)
    ensures
        is_invalid_argument(log_report(None, installed)),
{
    reveal_strlit("provided log level is NULL");
    lemma_message_has_length("provided log level is NULL"@);
}

/// An absent storage path is reported by a create as an invalid argument and
/// gives no handle, whatever the construction would have given.
pub proof fn lemma_absent_storage_path_is_reported<M>(created: Result<M, ServiceFailure>)
    ensures
        is_invalid_argument(created_outcome(new_report(None, created))),
        created_handle(new_report(None, created)) is None,
{
    reveal_strlit("provided storage path is NULL");
    lemma_message_has_length("provided storage path is NULL"@);
}

/// An absent handle is reported by a destroy as an invalid argument.
pub proof fn lemma_absent_handle_is_reported_by_destroy()
    ensures
        is_invalid_argument(destroy_result(false)),
{
    reveal_strlit("provided port manager is NULL");
    lemma_message_has_length("provided port manager is NULL"@);
}

/// An add with an absent handle, id, network or batch is reported as an
/// invalid argument and does not reach the service, whatever the other inputs
/// hold and whatever the parser and the service would have answered.
pub proof fn lemma_absent_input_is_reported_by_add(
    present: bool,
    id: Option<Seq<u8>>,
    container_network: Option<Seq<u8>>,
    port_mappings: Option<PortMappings>,
    hosts: Seq<Option<SocketAddress>>,
    service: Result<(), ServiceFailure>,
)
    requires
        !present || id is None || container_network is None || port_mappings is None,
    ensures
        is_invalid_argument(
            add_report(present, id, container_network, port_mappings, hosts, service),
        ),
        !add_reaches_service(present, id, container_network, port_mappings, hosts),
{
    lemma_add_failure_is_reported(present, id, container_network, port_mappings, hosts, service);
}

/// An add whose batch holds a record with an absent host IP or an absent
/// protocol is reported and does not reach the service, whatever the parser
/// and the service would have answered.
pub proof fn lemma_absent_record_input_is_reported_by_add(
    present: bool,
    id: Option<Seq<u8>>,
    container_network: Option<Seq<u8>>,
    batch: PortMappings,
    hosts: Seq<Option<SocketAddress>>,
    service: Result<(), ServiceFailure>,
    k: int,
)
    requires
        batch.records() matches Ok(records) ==> 0 <= k < records.len() && (records[k].host_ip
            is None || records[k].protocol is None),
    ensures
        is_reported(add_report(present, id, container_network, Some(batch), hosts, service)),
        !add_reaches_service(present, id, container_network, Some(batch), hosts),
{
    if batch.records() is Ok {
        let records = batch.records()->Ok_0;
        assert(records[k].marshalled(hosts[k]) is Err);
        lemma_accepted_prefix(records, hosts, records.len());
    }
    lemma_add_failure_is_reported(present, id, container_network, Some(batch), hosts, service);
}

/// A remove with an absent handle or an absent id is reported as an invalid
/// argument and does not reach the service, whatever the service would have
/// answered.
pub proof fn lemma_absent_input_is_reported_by_remove(
    present: bool,
    id: Option<Seq<u8>>,
    service: Result<(), ServiceFailure>,
)
    requires
        !present || id is None,
    ensures
        is_invalid_argument(remove_report(present, id, service)),
        !remove_reaches_service(present, id),
{
    reveal_strlit("provided port manager is NULL");
    reveal_strlit("provided ID is NULL");
    lemma_message_has_length(remove_report(present, id, service)->Err_0.message);
}

/// A create on a storage path that is valid text, for which the service was
/// constructed, gives a handle and leaves the channel empty; the destroy of
/// that handle leaves it empty too.
pub proof fn lemma_create_then_destroy<M>(path: Seq<u8>, manager: M)
    requires
        text_of(path) is Some,
    ensures
        created_handle(new_report(Some(path), Ok::<M, ServiceFailure>(manager))) == Some(manager),
        channel_after(created_outcome(new_report(Some(path), Ok::<M, ServiceFailure>(manager))))
            is None,
        channel_after(
            destroy_result(
                created_handle(new_report(Some(path), Ok::<M, ServiceFailure>(manager))) is Some,
            ),
        ) is None,
{
}

/// A create for which the service could not be constructed, or whose storage
/// path is absent or is not valid text, gives no handle and is reported.
pub proof fn lemma_failed_create_is_reported<M>(
    path: Option<Seq<u8>>,
    created: Result<M, ServiceFailure>,
)
    requires
        created is Err || storage_path(path) is Err,
    ensures
        created_handle(new_report(path, created)) is None,
        is_reported(created_outcome(new_report(path, created))),
{
    reveal_strlit("provided storage path is NULL");
    reveal_strlit("convert storage path string");
    reveal_strlit("create port manager");
    lemma_message_has_length(created_outcome(new_report(path, created))->Err_0.message);
}

/// An add whose batch holds a record that is not valid is reported and does
/// not reach the service, whatever the service would have answered. Where
/// that record is the first that is not valid, its failure is the one
/// reported; where the parser gave no address for it, that is the parse
/// failure that names its socket text.
pub proof fn lemma_malformed_record_rejects_batch(
    id: Seq<u8>,
    container_network: Seq<u8>,
    batch: PortMappings,
    hosts: Seq<Option<SocketAddress>>,
    service: Result<(), ServiceFailure>,
    k: int,
)
    requires
        batch.records() is Ok,
        0 <= k < batch.records()->Ok_0.len(),
        batch.records()->Ok_0[k].marshalled(hosts[k]) is Err,
    ensures
        is_reported(add_report(true, Some(id), Some(container_network), Some(batch), hosts, service)),
        !add_reaches_service(true, Some(id), Some(container_network), Some(batch), hosts),
        (forall|i: int|
            0 <= i < k ==> (#[trigger] batch.records()->Ok_0[i]).marshalled(hosts[i]) is Ok)
            ==> add_report(true, Some(id), Some(container_network), Some(batch), hosts, service)
            == Err::<(), ErrorView>(batch.records()->Ok_0[k].marshalled(hosts[k])->Err_0),
        (forall|i: int|
            0 <= i < k ==> (#[trigger] batch.records()->Ok_0[i]).marshalled(hosts[i]) is Ok)
            && batch.records()->Ok_0[k].socket_text() is Ok && hosts[k] is None ==> add_report(
            true,
            Some(id),
            Some(container_network),
            Some(batch),
            hosts,
            service,
        ) == Err::<(), ErrorView>(
            crate::error::failure(
                ErrorKind::ParseError,
                "parse socket address "@ + batch.records()->Ok_0[k].socket_text()->Ok_0,
            ),
        ),
{
    let records = batch.records()->Ok_0;
    lemma_accepted_prefix(records, hosts, records.len());
    lemma_add_failure_is_reported(
        true,
        Some(id),
        Some(container_network),
        Some(batch),
        hosts,
        service,
    );
    if forall|i: int| 0 <= i < k ==> (#[trigger] records[i]).marshalled(hosts[i]) is Ok {
        lemma_first_rejected(records, hosts, k as nat, records.len());
    }
}

/// An add of a batch of any number of valid records, with an id and a
/// network that are valid, hands the service one request that holds every
/// record in the order of the batch; where the service succeeds, neither the
/// add nor the remove of the same id that follows reports a failure.
pub proof fn lemma_add_then_remove(
    id: Seq<u8>,
    container_network: Seq<u8>,
    batch: PortMappings,
    hosts: Seq<Option<SocketAddress>>,
)
    requires
        text_of(id) is Some,
        text_of(container_network) is Some,
        parsed_network(text_of(container_network)->Some_0) is Some,
        batch.records() is Ok,
        forall|i: int|
            0 <= i < batch.records()->Ok_0.len() ==> (#[trigger] batch.records()->Ok_0[i]).marshalled(
                hosts[i],
            ) is Ok,
    ensures
        add_reaches_service(true, Some(id), Some(container_network), Some(batch), hosts),
        add_request(Some(id), Some(container_network), Some(batch), hosts) matches Ok(request) && {
            &&& request.id == text_of(id)->Some_0
            &&& network_result(text_of(container_network)->Some_0) == Ok::<_, ErrorView>(
                request.container_network,
            )
            &&& request.port_mappings.len() == batch.records()->Ok_0.len()
            &&& forall|i: int|
                0 <= i < request.port_mappings.len() ==> (#[trigger] batch.records()->Ok_0[i]).marshalled(
                    hosts[i],
                ) == Ok::<NativeView, ErrorView>(request.port_mappings[i])
        },
        add_report(true, Some(id), Some(container_network), Some(batch), hosts, Ok(())) == Ok::<
            (),
            ErrorView,
        >(()),
        remove_reaches_service(true, Some(id)),
        remove_report(true, Some(id), Ok(())) == Ok::<(), ErrorView>(()),
{
    let records = batch.records()->Ok_0;
    lemma_accepted_prefix(records, hosts, records.len());
    assert(container_id(Some(id)) is Ok);
}

/// Whether the parser gives an address for every text that it is asked.
pub open spec fn parses_every_text<P: Fn(&str) -> Option<SocketAddress>>(parse_host: &P) -> bool {
    forall|t: &str, host: Option<SocketAddress>| #[trigger]
        parse_host.ensures((t,), host) ==> host is Some
}

/// Where each record has a socket text and a protocol, and the parser gives
/// an address for every text, the first `k` records are accepted for every
/// list of answers that the parser may give.
pub proof fn lemma_consulted_prefix_is_accepted<P: Fn(&str) -> Option<SocketAddress>>(
    records: Seq<PortMapping>,
    hosts: Seq<Option<SocketAddress>>,
    parse_host: &P,
    k: nat,
)
    requires
        k <= records.len(),
        parses_every_text(parse_host),
        forall|i: int|
            0 <= i < records.len() ==> (#[trigger] records[i]).socket_text() is Ok
                && records[i].protocol_text() is Ok,
        forall|i: int|
            0 <= i < records.len() && marshalled_prefix(records, hosts, i as nat) is Ok
                ==> (#[trigger] records[i]).consulted(parse_host, hosts[i]),
    ensures
        marshalled_prefix(records, hosts, k) is Ok,
    decreases k,
{
    if k > 0 {
        lemma_consulted_prefix_is_accepted(records, hosts, parse_host, (k - 1) as nat);
        let record = records[k - 1];
        assert(record.consulted(parse_host, hosts[k - 1]));
        assert(record.socket_text() is Ok);
        assert(hosts[k - 1] is Some);
    }
}

/// An add of a batch of any number of records, each with a socket text and a
/// recognized protocol, with an id and a network that are valid, is valid
/// whatever the parser answers, if the parser gives an address for every
/// text. With a service that cannot fail, the add and the remove of the same
/// id then leave no failure, as their contracts say.
pub proof fn lemma_valid_records_are_valid<P: Fn(&str) -> Option<SocketAddress>>(
    id: Seq<u8>,
    container_network: Seq<u8>,
    batch: PortMappings,
    parse_host: &P,
)
    requires
        text_of(id) is Some,
        text_of(container_network) is Some,
        parsed_network(text_of(container_network)->Some_0) is Some,
        batch.records() is Ok,
        forall|i: int|
            0 <= i < batch.records()->Ok_0.len() ==> (#[trigger] batch.records()->Ok_0[i]).socket_text()
                is Ok && batch.records()->Ok_0[i].protocol_text() is Ok,
        parses_every_text(parse_host),
    ensures
        add_is_valid(Some(id), Some(container_network), Some(batch), parse_host),
        container_id(Some(id)) is Ok,
{
    let records = batch.records()->Ok_0;
    assert forall|hosts: Seq<Option<SocketAddress>>| #[trigger]
        add_consulted(
            Some(id),
            Some(container_network),
            Some(batch),
            parse_host,
            hosts,
        ) implies add_request(Some(id), Some(container_network), Some(batch), hosts) is Ok by {
        lemma_consulted_prefix_is_accepted(records, hosts, parse_host, records.len());
    }
}

} // verus!
