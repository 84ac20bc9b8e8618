//! The port manager as the caller sees it: create and destroy a service, add
//! and remove the port mappings of a container. Each call validates its
//! inputs, reaches the service only with valid ones, and leaves its outcome in
//! the error channel.

use crate::address::{network_result, parse_network, ContainerNetwork, SocketAddress};
use crate::error::{channel_after, failure, outcome_view, BoundaryError, ErrorChannel, ErrorKind, ErrorView};
use crate::mapping::{native_views, NativePortMapping, NativeView, PortMappings};
use crate::text::{buffer_view, joined, require_text, required_text};
use vstd::prelude::*;

verus! {

/// Why a call of the service gave no result, with the cause as the service
/// or the execution context worded it.
#[derive(Clone, Debug, PartialEq, Eq)]
pub enum ServiceFailure {
    /// The execution context for the call could not be established.
    ExecutionContext(String),
    /// The service ran and failed.
    Operation(String),
}

/// The failure reported for a call of the service that gave no result: the
/// stage that failed, a colon, a space and the cause. A missing execution
/// context is an internal error, a failure of the service is of the kind
/// `operation`.
pub open spec fn service_failure(stage: Seq<char>, operation: ErrorKind, cause: ServiceFailure)
    -> ErrorView {
    match cause {
        ServiceFailure::ExecutionContext(text) => failure(
            ErrorKind::InternalError,
            stage + ": "@ + text@,
        ),
        ServiceFailure::Operation(text) => failure(operation, stage + ": "@ + text@),
    }
}

/// Builds the failure reported for a call of the service that gave no result.
pub fn report_service_failure(stage: &str, operation: ErrorKind, cause: ServiceFailure) -> (e:
    BoundaryError)
    ensures
        e@ == service_failure(stage@, operation, cause),
{
    let mut message = joined(stage, ": ");
    match cause {
        ServiceFailure::ExecutionContext(text) => {
            message.append(text.as_str());
            BoundaryError { kind: ErrorKind::InternalError, message }
        },
        ServiceFailure::Operation(text) => {
            message.append(text.as_str());
            BoundaryError { kind: operation, message }
        },
    }
}

/// The service behind a handle. Each method runs to completion before it
/// returns; by default it does nothing and succeeds.
pub trait Manager {
    /// Adds the port mappings of the container `id` in `container_network`.
    fn add_impl(
        &mut self,
        id: &str,
        container_network: ContainerNetwork,
        port_mappings: &[NativePortMapping],
    ) -> (result: Result<(), ServiceFailure>) {
        Ok(())
    }

    /// Removes all port mappings of the container `id`.
    fn remove_impl(&mut self, id: &str) -> (result: Result<(), ServiceFailure>) {
        Ok(())
    }
}

/// A validated request to add port mappings.
#[derive(Clone, Debug, PartialEq, Eq)]
pub struct AddRequest {
    /// The identity of the container.
    pub id: String,
    /// The network of the container.
    pub container_network: ContainerNetwork,
    /// The validated mappings, in the order of the batch.
    pub port_mappings: Vec<NativePortMapping>,
}

/// The mathematical value of an `AddRequest`.
pub struct RequestView {
    pub id: Seq<char>,
    pub container_network: ContainerNetwork,
    pub port_mappings: Seq<NativeView>,
}

impl View for AddRequest {
    type V = RequestView;

    open spec fn view(&self) -> RequestView {
        RequestView {
            id: self.id@,
            container_network: self.container_network,
            port_mappings: native_views(self.port_mappings@),
        }
    }
}

/// The result of validating a request to add, by its views.
pub open spec fn request_view(result: Result<AddRequest, BoundaryError>) -> Result<
    RequestView,
    ErrorView,
> {
    match result {
        Ok(request) => Ok(request@),
        Err(e) => Err(e@),
    }
}

/// The failure reported for an absent handle.
pub open spec fn absent_manager() -> ErrorView {
    failure(ErrorKind::InvalidArgument, "provided port manager is NULL"@)
}

/// The identity of a container as the caller supplies it.
pub open spec fn container_id(id: Option<Seq<u8>>) -> Result<Seq<char>, ErrorView> {
    required_text(id, "provided ID is NULL"@, "convert ID string"@)
}

/// The request that the inputs of an add make, where `hosts` holds the
/// parser's answer for each record. The three inputs have to be present, in
/// the order id, network, mappings. Then the records are validated, then the
/// texts of the network and of the id, then the network itself.
pub open spec fn add_request(
    id: Option<Seq<u8>>,
    container_network: Option<Seq<u8>>,
    port_mappings: Option<PortMappings>,
    hosts: Seq<Option<SocketAddress>>,
) -> Result<RequestView, ErrorView> {
    if id is None {
        Err(failure(ErrorKind::InvalidArgument, "provided ID is NULL"@))
    } else if container_network is None {
        Err(failure(ErrorKind::InvalidArgument, "provided container network is NULL"@))
    } else {
        match port_mappings {
            None => Err(failure(ErrorKind::InvalidArgument, "provided port mappings are NULL"@)),
            Some(batch) => match batch.marshalled(hosts) {
                Err(e) => Err(e),
                Ok(mappings) => match required_text(
                    container_network,
                    "provided container network is NULL"@,
                    "convert container network string"@,
                ) {
                    Err(e) => Err(e),
                    Ok(network_text) => match container_id(id) {
                        Err(e) => Err(e),
                        Ok(id_text) => match network_result(network_text) {
                            Err(e) => Err(e),
                            Ok(network) => Ok(
                                RequestView {
                                    id: id_text,
                                    container_network: network,
                                    port_mappings: mappings,
                                },
                            ),
                        },
                    },
                },
            },
        }
    }
}

/// Whether `hosts` may stand for the parser's answers on the batch of an add.
pub open spec fn add_consulted<P: Fn(&str) -> Option<SocketAddress>>(
    id: Option<Seq<u8>>,
    container_network: Option<Seq<u8>>,
    port_mappings: Option<PortMappings>,
    parse_host: &P,
    hosts: Seq<Option<SocketAddress>>,
) -> bool {
    id is Some && container_network is Some ==> (port_mappings matches Some(batch)
        ==> batch.consulted(parse_host, hosts))
}

/// What an add reports once the service has answered.
pub open spec fn add_result(service: Result<(), ServiceFailure>) -> Result<(), ErrorView> {
    match service {
        Ok(()) => Ok(()),
        Err(cause) => Err(service_failure("add port mappings"@, ErrorKind::ServiceError, cause)),
    }
}

/// What a remove reports once the service has answered.
pub open spec fn remove_result(service: Result<(), ServiceFailure>) -> Result<(), ErrorView> {
    match service {
        Ok(()) => Ok(()),
        Err(cause) => Err(
            service_failure("remove port mappings"@, ErrorKind::ServiceError, cause),
        ),
    }
}

/// Validates the inputs of an add, all of them before anything is handed on.
pub fn marshal_add_request<P: Fn(&str) -> Option<SocketAddress>>(
    id: Option<&[u8]>,
    container_network: Option<&[u8]>,
    port_mappings: Option<&PortMappings>,
    parse_host: &P,
) -> (result: Result<AddRequest, BoundaryError>)
    requires
        forall|t: &str| parse_host.requires((t,)),
    ensures
        exists|hosts: Seq<Option<SocketAddress>>|
            {
                &&& add_consulted(
                    buffer_view(id),
                    buffer_view(container_network),
                    batch_of(port_mappings),
                    parse_host,
                    hosts,
                )
                &&& request_view(result) == add_request(
                    buffer_view(id),
                    buffer_view(container_network),
                    batch_of(port_mappings),
                    hosts,
                )
            },
        result matches Ok(request) ==> request.container_network.is_well_formed(),
{
    let ghost none: Seq<Option<SocketAddress>> = Seq::empty();
    let ghost i = buffer_view(id);
    let ghost c = buffer_view(container_network);
    let ghost b = batch_of(port_mappings);
    if id.is_none() {
        let result = Err(BoundaryError::new(ErrorKind::InvalidArgument, "provided ID is NULL"));
        assert(add_consulted(i, c, b, parse_host, none) && request_view(result) == add_request(
            i,
            c,
            b,
            none,
        ));
        return result;
    }
    if container_network.is_none() {
        let result = Err(
            BoundaryError::new(ErrorKind::InvalidArgument, "provided container network is NULL"),
        );
        assert(add_consulted(i, c, b, parse_host, none) && request_view(result) == add_request(
            i,
            c,
            b,
            none,
        ));
        return result;
    }
    let batch = match port_mappings {
        None => {
            let result = Err(
                BoundaryError::new(ErrorKind::InvalidArgument, "provided port mappings are NULL"),
            );
            assert(add_consulted(i, c, b, parse_host, none) && request_view(result)
                == add_request(i, c, b, none));
            return result;
        },
        Some(batch) => batch,
    };
    let marshalled = batch.marshal(parse_host);
    let ghost hosts = choose|hosts: Seq<Option<SocketAddress>>|
        batch.consulted(parse_host, hosts) && crate::mapping::batch_view(marshalled)
            == batch.marshalled(hosts);
    let mappings = match marshalled {
        Err(e) => {
            let result = Err(e);
            assert(add_consulted(i, c, b, parse_host, hosts) && request_view(result)
                == add_request(i, c, b, hosts));
            return result;
        },
        Ok(mappings) => mappings,
    };
    let network_text = match require_text(
        container_network,
        "provided container network is NULL",
        "convert container network string",
    ) {
        Err(e) => {
            let result = Err(e);
            assert(add_consulted(i, c, b, parse_host, hosts) && request_view(result)
                == add_request(i, c, b, hosts));
            return result;
        },
        Ok(text) => text,
    };
    let id_text = match require_text(id, "provided ID is NULL", "convert ID string") {
        Err(e) => {
            let result = Err(e);
            assert(add_consulted(i, c, b, parse_host, hosts) && request_view(result)
                == add_request(i, c, b, hosts));
            return result;
        },
        Ok(text) => text,
    };
    let result = match parse_network(network_text) {
        Err(e) => Err(e),
        Ok(network) => Ok(
            AddRequest {
                id: String::from_str(id_text),
                container_network: network,
                port_mappings: mappings,
            },
        ),
    };
    assert(add_consulted(i, c, b, parse_host, hosts) && request_view(result) == add_request(
        i,
        c,
        b,
        hosts,
    ));
    result
}

/// A batch that may be absent, as a value.
pub open spec fn batch_of(port_mappings: Option<&PortMappings>) -> Option<PortMappings> {
    match port_mappings {
        None => None,
        Some(batch) => Some(*batch),
    }
}

/// What an add reports for the answer of the service.
pub fn add_outcome(service: Result<(), ServiceFailure>) -> (outcome: Result<(), BoundaryError>)
    ensures
        outcome_view(outcome) == add_result(service),
{
    match service {
        Ok(()) => Ok(()),
        Err(cause) => Err(
            report_service_failure("add port mappings", ErrorKind::ServiceError, cause),
        ),
    }
}

/// What a remove reports for the answer of the service.
pub fn remove_outcome(service: Result<(), ServiceFailure>) -> (outcome: Result<(), BoundaryError>)
    ensures
        outcome_view(outcome) == remove_result(service),
{
    match service {
        Ok(()) => Ok(()),
        Err(cause) => Err(
            report_service_failure("remove port mappings", ErrorKind::ServiceError, cause),
        ),
    }
}

/// What a destroy reports: a failure for an absent handle, and success
/// otherwise.
pub open spec fn destroy_result(present: bool) -> Result<(), ErrorView> {
    if present {
        Ok(())
    } else {
        Err(absent_manager())
    }
}

/// The storage path as the caller supplies it.
pub open spec fn storage_path(path: Option<Seq<u8>>) -> Result<Seq<char>, ErrorView> {
    required_text(path, "provided storage path is NULL"@, "convert storage path string"@)
}

/// What a create reports once the service was or was not constructed.
pub open spec fn new_result<M>(created: Result<M, ServiceFailure>) -> Result<M, ErrorView> {
    match created {
        Ok(manager) => Ok(manager),
        Err(cause) => Err(
            service_failure("create port manager"@, ErrorKind::InitializationError, cause),
        ),
    }
}

/// The result of a create, with the error by its view.
pub open spec fn created_view<M>(result: Result<M, BoundaryError>) -> Result<M, ErrorView> {
    match result {
        Ok(manager) => Ok(manager),
        Err(e) => Err(e@),
    }
}

/// The outcome of a create, without the service.
pub open spec fn created_outcome<M>(result: Result<M, ErrorView>) -> Result<(), ErrorView> {
    match result {
        Ok(_) => Ok(()),
        Err(e) => Err(e),
    }
}

/// The handle that a create returns: the service, and none after a failure.
pub open spec fn created_handle<M>(result: Result<M, ErrorView>) -> Option<M> {
    match result {
        Ok(manager) => Some(manager),
        Err(_) => None,
    }
}

/// What a create reports for the result of the construction.
pub fn new_outcome<M>(created: Result<M, ServiceFailure>) -> (result: Result<M, BoundaryError>)
    ensures
        created_view(result) == new_result(created),
{
    match created {
        Ok(manager) => Ok(manager),
        Err(cause) => Err(
            report_service_failure("create port manager", ErrorKind::InitializationError, cause),
        ),
    }
}

/// What a create reports: the failure of the storage path, or what the
/// construction gave.
pub open spec fn new_report<M>(path: Option<Seq<u8>>, created: Result<M, ServiceFailure>) -> Result<
    M,
    ErrorView,
> {
    match storage_path(path) {
        Err(e) => Err(e),
        Ok(_) => new_result(created),
    }
}

/// What an add reports, where `hosts` holds the parser's answer for each
/// record and `service` the answer of the service: the absent handle first,
/// then the first input that is not valid, then the service.
pub open spec fn add_report(
    present: bool,
    id: Option<Seq<u8>>,
    container_network: Option<Seq<u8>>,
    port_mappings: Option<PortMappings>,
    hosts: Seq<Option<SocketAddress>>,
    service: Result<(), ServiceFailure>,
) -> Result<(), ErrorView> {
    if !present {
        Err(absent_manager())
    } else {
        match add_request(id, container_network, port_mappings, hosts) {
            Err(e) => Err(e),
            Ok(_) => add_result(service),
        }
    }
}

/// Whether an add hands its request to the service: the handle is present and
/// every input is valid.
pub open spec fn add_reaches_service(
    present: bool,
    id: Option<Seq<u8>>,
    container_network: Option<Seq<u8>>,
    port_mappings: Option<PortMappings>,
    hosts: Seq<Option<SocketAddress>>,
) -> bool {
    present && add_request(id, container_network, port_mappings, hosts) is Ok
}

/// What a remove reports, where `service` holds the answer of the service:
/// the absent handle first, then the id, then the service.
pub open spec fn remove_report(
    present: bool,
    id: Option<Seq<u8>>,
    service: Result<(), ServiceFailure>,
) -> Result<(), ErrorView> {
    if !present {
        Err(absent_manager())
    } else {
        match container_id(id) {
            Err(e) => Err(e),
            Ok(_) => remove_result(service),
        }
    }
}

/// Whether a remove calls the service: the handle is present and the id is
/// valid text.
pub open spec fn remove_reaches_service(present: bool, id: Option<Seq<u8>>) -> bool {
    present && container_id(id) is Ok
}

/// Whether `created` is a result that `create` may give for the path `path`.
pub open spec fn constructs<M, F: FnOnce(&str) -> Result<M, ServiceFailure>>(
    create: F,
    path: Seq<char>,
    created: Result<M, ServiceFailure>,
) -> bool {
    exists|t: &str| t@ == path && create.ensures((t,), created)
}

/// Whether `created` may stand for what `create` gave for a storage path:
/// where the path is valid text, `create` may give it for that path.
pub open spec fn new_consulted<M, F: FnOnce(&str) -> Result<M, ServiceFailure>>(
    path: Option<Seq<u8>>,
    create: F,
    created: Result<M, ServiceFailure>,
) -> bool {
    storage_path(path) matches Ok(text) ==> constructs(create, text, created)
}

/// Whether the add of a service of type `M` cannot fail: every answer that a
/// call of it may give is a success.
pub open spec fn adds_without_fail<M: Manager>() -> bool {
    forall|
        m: &mut M,
        id: &str,
        network: ContainerNetwork,
        mappings: &[NativePortMapping],
        answer: Result<(), ServiceFailure>,
    | #[trigger]
        call_ensures(M::add_impl, (m, id, network, mappings), answer) ==> answer is Ok
}

/// Whether the remove of a service of type `M` cannot fail: every answer that
/// a call of it may give is a success.
pub open spec fn removes_without_fail<M: Manager>() -> bool {
    forall|m: &mut M, id: &str, answer: Result<(), ServiceFailure>| #[trigger]
        call_ensures(M::remove_impl, (m, id), answer) ==> answer is Ok
}

/// Whether the inputs of an add are valid whatever the parser answers: every
/// list of answers that the parser may give makes a request.
pub open spec fn add_is_valid<P: Fn(&str) -> Option<SocketAddress>>(
    id: Option<Seq<u8>>,
    container_network: Option<Seq<u8>>,
    port_mappings: Option<PortMappings>,
    parse_host: &P,
) -> bool {
    forall|hosts: Seq<Option<SocketAddress>>| #[trigger]
        add_consulted(id, container_network, port_mappings, parse_host, hosts) ==> add_request(
            id,
            container_network,
            port_mappings,
            hosts,
        ) is Ok
}

/// Creates a service at `storage_path`. The path is validated first; `create`
/// is called once, with the path, only if it is valid text.
pub fn port_manager_new_res<M, F: FnOnce(&str) -> Result<M, ServiceFailure>>(
    storage_path: Option<&[u8]>,
    create: F,
) -> (result: Result<M, BoundaryError>)
    requires
        forall|t: &str| create.requires((t,)),
    ensures
        exists|created: Result<M, ServiceFailure>|
            {
                &&& new_consulted(buffer_view(storage_path), create, created)
                &&& created_view(result) == new_report(buffer_view(storage_path), created)
            },
{
    match require_text(storage_path, "provided storage path is NULL", "convert storage path string") {
        Err(e) => {
            let result = Err(e);
            let ghost created: Result<M, ServiceFailure> = arbitrary();
            assert(created_view(result) == new_report(buffer_view(storage_path), created));
            result
        },
        Ok(path) => {
            let created = create(path);
            let result = new_outcome(created);
            assert(constructs(create, path@, created));
            assert(created_view(result) == new_report(buffer_view(storage_path), created));
            result
        },
    }
}

/// Creates a service at `storage_path` and returns its handle. After a
/// failure there is no handle and the channel holds the message; after a
/// success the channel is empty.
pub fn port_manager_new<M, F: FnOnce(&str) -> Result<M, ServiceFailure>>(
    channel: &mut ErrorChannel,
    storage_path: Option<&[u8]>,
    create: F,
) -> (port_manager: Option<M>)
    requires
        forall|t: &str| create.requires((t,)),
    ensures
        exists|created: Result<M, ServiceFailure>|
            {
                &&& new_consulted(buffer_view(storage_path), create, created)
                &&& port_manager == created_handle(
                    new_report(buffer_view(storage_path), created),
                )
                &&& final(channel)@ == channel_after(
                    created_outcome(new_report(buffer_view(storage_path), created)),
                )
            },
        port_manager is Some <==> final(channel)@ is None,
{
    let result = port_manager_new_res(storage_path, create);
    match result {
        Err(e) => {
            channel.set(e.message);
            None
        },
        Ok(port_manager) => {
            channel.clear();
            Some(port_manager)
        },
    }
}

/// Destroys the service behind a handle and releases what it holds. An absent
/// handle is reported and nothing else happens.
pub fn port_manager_destroy<M>(channel: &mut ErrorChannel, port_manager: Option<M>)
    ensures
        final(channel)@ == channel_after(destroy_result(port_manager is Some)),
{
    match port_manager {
        None => {
            channel.set(String::from_str("provided port manager is NULL"));
        },
        Some(_) => {
            channel.clear();
        },
    }
}

/// Adds port mappings through a handle. The handle has to be present, then
/// all inputs are validated, then the service is called once with the
/// validated request: the id, the network and the mappings in the order of
/// the batch. What is reported is what that call answered. Where anything is
/// not valid the service is not called.
pub fn port_manager_add_res<M: Manager, P: Fn(&str) -> Option<SocketAddress>>(
    port_manager: Option<&mut M>,
    id: Option<&[u8]>,
    container_network: Option<&[u8]>,
    port_mappings: Option<&PortMappings>,
    parse_host: &P,
) -> (outcome: Result<(), BoundaryError>)
    requires
        forall|t: &str| parse_host.requires((t,)),
    ensures
        exists|hosts: Seq<Option<SocketAddress>>, service: Result<(), ServiceFailure>|
            {
                &&& port_manager is Some ==> add_consulted(
                    buffer_view(id),
                    buffer_view(container_network),
                    batch_of(port_mappings),
                    parse_host,
                    hosts,
                )
                &&& outcome_view(outcome) == #[trigger] add_report(
                    port_manager is Some,
                    buffer_view(id),
                    buffer_view(container_network),
                    batch_of(port_mappings),
                    hosts,
                    service,
                )
                &&& port_manager matches Some(manager) ==> match add_request(
                    buffer_view(id),
                    buffer_view(container_network),
                    batch_of(port_mappings),
                    hosts,
                ) {
                    Err(_) => *final(manager) == *manager,
                    Ok(request) => exists|
                        m: &mut M,
                        id_text: &str,
                        mappings: &[NativePortMapping],
                    |
                        {
                            &&& *m == *manager
                            &&& *final(m) == *final(manager)
                            &&& id_text@ == request.id
                            &&& native_views(mappings@) == request.port_mappings
                            &&& #[trigger] call_ensures(
                                M::add_impl,
                                (m, id_text, request.container_network, mappings),
                                service,
                            )
                        },
                }
            },
        port_manager is Some && adds_without_fail::<M>() && add_is_valid(
            buffer_view(id),
            buffer_view(container_network),
            batch_of(port_mappings),
            parse_host,
        ) ==> outcome is Ok,
{
    let ghost i = buffer_view(id);
    let ghost c = buffer_view(container_network);
    let ghost b = batch_of(port_mappings);
    let manager = match port_manager {
        None => {
            let outcome = Err(
                BoundaryError::new(ErrorKind::InvalidArgument, "provided port manager is NULL"),
            );
            assert(outcome_view(outcome) == add_report(false, i, c, b, Seq::empty(), Ok(())));
            return outcome;
        },
        Some(manager) => manager,
    };
    let validated = marshal_add_request(id, container_network, port_mappings, parse_host);
    let ghost hosts = choose|hosts: Seq<Option<SocketAddress>>|
        add_consulted(i, c, b, parse_host, hosts) && request_view(validated) == add_request(
            i,
            c,
            b,
            hosts,
        );
    match validated {
        Err(e) => {
            let outcome = Err(e);
            assert(outcome_view(outcome) == add_report(true, i, c, b, hosts, Ok(())));
            outcome
        },
        Ok(request) => {
            let service = manager.add_impl(
                request.id.as_str(),
                request.container_network,
                request.port_mappings.as_slice(),
            );
            let outcome = add_outcome(service);
            assert(outcome_view(outcome) == add_report(true, i, c, b, hosts, service));
            outcome
        },
    }
}

/// Adds port mappings through a handle and leaves the outcome in the channel.
pub fn port_manager_add<M: Manager, P: Fn(&str) -> Option<SocketAddress>>(
    channel: &mut ErrorChannel,
    port_manager: Option<&mut M>,
    id: Option<&[u8]>,
    container_network: Option<&[u8]>,
    port_mappings: Option<&PortMappings>,
    parse_host: &P,
)
    requires
        forall|t: &str| parse_host.requires((t,)),
    ensures
        exists|hosts: Seq<Option<SocketAddress>>, service: Result<(), ServiceFailure>|
            {
                &&& port_manager is Some ==> add_consulted(
                    buffer_view(id),
                    buffer_view(container_network),
                    batch_of(port_mappings),
                    parse_host,
                    hosts,
                )
                &&& final(channel)@ == channel_after(
                    #[trigger] add_report(
                        port_manager is Some,
                        buffer_view(id),
                        buffer_view(container_network),
                        batch_of(port_mappings),
                        hosts,
                        service,
                    ),
                )
                &&& port_manager matches Some(manager) ==> match add_request(
                    buffer_view(id),
                    buffer_view(container_network),
                    batch_of(port_mappings),
                    hosts,
                ) {
                    Err(_) => *final(manager) == *manager,
                    Ok(request) => exists|
                        m: &mut M,
                        id_text: &str,
                        mappings: &[NativePortMapping],
                    |
                        {
                            &&& *m == *manager
                            &&& *final(m) == *final(manager)
                            &&& id_text@ == request.id
                            &&& native_views(mappings@) == request.port_mappings
                            &&& #[trigger] call_ensures(
                                M::add_impl,
                                (m, id_text, request.container_network, mappings),
                                service,
                            )
                        },
                }
            },
        port_manager is Some && adds_without_fail::<M>() && add_is_valid(
            buffer_view(id),
            buffer_view(container_network),
            batch_of(port_mappings),
            parse_host,
        ) ==> final(channel)@ is None,
{
    let outcome = port_manager_add_res(port_manager, id, container_network, port_mappings, parse_host);
    channel.update_if_required(outcome);
}

/// Removes the port mappings of a container through a handle. The handle and
/// the id have to be present and the id valid text; then the service is
/// called once with the id. What is reported is what that call answered.
/// Where anything is not valid the service is not called.
pub fn port_manager_remove_res<M: Manager>(port_manager: Option<&mut M>, id: Option<&[u8]>) -> (outcome:
    Result<(), BoundaryError>)
    ensures
        exists|service: Result<(), ServiceFailure>|
            {
                &&& outcome_view(outcome) == #[trigger] remove_report(
                    port_manager is Some,
                    buffer_view(id),
                    service,
                )
                &&& port_manager matches Some(manager) ==> match container_id(buffer_view(id)) {
                    Err(_) => *final(manager) == *manager,
                    Ok(text) => exists|m: &mut M, id_text: &str|
                        {
                            &&& *m == *manager
                            &&& *final(m) == *final(manager)
                            &&& id_text@ == text
                            &&& #[trigger] call_ensures(M::remove_impl, (m, id_text), service)
                        },
                }
            },
        port_manager is Some && removes_without_fail::<M>() && container_id(buffer_view(id))
            is Ok ==> outcome is Ok,
{
    let manager = match port_manager {
        None => {
            let outcome = Err(
                BoundaryError::new(ErrorKind::InvalidArgument, "provided port manager is NULL"),
            );
            assert(outcome_view(outcome) == remove_report(false, buffer_view(id), Ok(())));
            return outcome;
        },
        Some(manager) => manager,
    };
    match require_text(id, "provided ID is NULL", "convert ID string") {
        Err(e) => {
            let outcome = Err(e);
            assert(outcome_view(outcome) == remove_report(true, buffer_view(id), Ok(())));
            outcome
        },
        Ok(id_text) => {
            let service = manager.remove_impl(id_text);
            let outcome = remove_outcome(service);
            assert(outcome_view(outcome) == remove_report(true, buffer_view(id), service));
            outcome
        },
    }
}

/// Removes the port mappings of a container through a handle and leaves the
/// outcome in the channel.
pub fn port_manager_remove<M: Manager>(
    channel: &mut ErrorChannel,
    port_manager: Option<&mut M>,
    id: Option<&[u8]>,
)
    ensures
        exists|service: Result<(), ServiceFailure>|
            {
                &&& final(channel)@ == channel_after(
                    #[trigger] remove_report(port_manager is Some, buffer_view(id), service),
                )
                &&& port_manager matches Some(manager) ==> match container_id(buffer_view(id)) {
                    Err(_) => *final(manager) == *manager,
                    Ok(text) => exists|m: &mut M, id_text: &str|
                        {
                            &&& *m == *manager
                            &&& *final(m) == *final(manager)
                            &&& id_text@ == text
                            &&& #[trigger] call_ensures(M::remove_impl, (m, id_text), service)
                        },
                }
            },
        port_manager is Some && removes_without_fail::<M>() && container_id(buffer_view(id))
            is Ok ==> final(channel)@ is None,
{
    let outcome = port_manager_remove_res(port_manager, id);
    channel.update_if_required(outcome);
}

} // verus!
