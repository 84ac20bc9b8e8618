use port_boundary::address::parse_network;
use port_boundary::port::{port_manager_add_res, port_manager_new_res, port_manager_remove_res};
use port_boundary::{
    port_manager_add, port_manager_destroy, port_manager_new, port_manager_remove, ContainerNetwork,
    ErrorChannel, ErrorKind, Manager, NativePortMapping, PortMapping, PortMappings, ServiceFailure,
    SocketAddress,
};

/// A service that does nothing and succeeds.
#[derive(Clone)]
struct PortManagerMock;

impl PortManagerMock {
    fn new() -> Option<PortManagerMock> {
        Some(PortManagerMock)
    }
}

impl Manager for PortManagerMock {}

/// A service that keeps what it was called with and answers as it was told.
#[derive(Clone, Debug, PartialEq, Eq)]
struct Recorder {
    added: Vec<(String, ContainerNetwork, Vec<NativePortMapping>)>,
    removed: Vec<String>,
    answer: Result<(), ServiceFailure>,
}

impl Recorder {
    fn answering(answer: Result<(), ServiceFailure>) -> Recorder {
        Recorder { added: Vec::new(), removed: Vec::new(), answer }
    }
}

impl Manager for Recorder {
    fn add_impl(
        &mut self,
        id: &str,
        container_network: ContainerNetwork,
        port_mappings: &[NativePortMapping],
    ) -> Result<(), ServiceFailure> {
        self.added.push((id.to_string(), container_network, port_mappings.to_vec()));
        self.answer.clone()
    }

    fn remove_impl(&mut self, id: &str) -> Result<(), ServiceFailure> {
        self.removed.push(id.to_string());
        self.answer.clone()
    }
}

/// Stands for the parser of socket addresses: an address that `parse_network`
/// reads, in brackets where it is IPv6, a colon and a port.
fn parse_host(text: &str) -> Option<SocketAddress> {
    let (ip, port) = text.rsplit_once(':')?;
    let port: u16 = port.parse().ok()?;
    if ip.contains('/') {
        return None;
    }
    if let Some(inner) = ip.strip_prefix('[').and_then(|rest| rest.strip_suffix(']')) {
        match parse_network(inner) {
            Ok(ContainerNetwork::V6 { address, .. }) => {
                Some(SocketAddress::V6 { address, port, flow_info: 0, scope_id: 0 })
            }
            _ => None,
        }
    } else {
        match parse_network(ip) {
            Ok(ContainerNetwork::V4 { address, .. }) => Some(SocketAddress::V4 { address, port }),
            _ => None,
        }
    }
}

fn mapping(host_ip: Option<&[u8]>, host_port: u16, container_port: u16, protocol: Option<&[u8]>) -> PortMapping {
    PortMapping {
        host_ip: host_ip.map(|b| b.to_vec()),
        host_port,
        container_port,
        protocol: protocol.map(|b| b.to_vec()),
    }
}

fn batch(records: Vec<PortMapping>) -> PortMappings {
    let length = records.len();
    PortMappings { array: Some(records), length }
}

fn message(channel: &ErrorChannel) -> String {
    let mut buffer = vec![0u8; channel.length()];
    let written = channel.copy_into(Some(&mut buffer));
    assert_eq!(written, channel.length() as isize);
    String::from_utf8(buffer).unwrap()
}

fn created(path: &str) -> Result<PortManagerMock, ServiceFailure> {
    if path == "/some/wrong/path" {
        Err(ServiceFailure::Operation("no such directory".to_string()))
    } else {
        Ok(PortManagerMock)
    }
}

#[test]
fn new_port_manager_success() {
    let mut channel = ErrorChannel::new();
    let port_manager = port_manager_new(&mut channel, Some(b"/tmp/storage\0"), created);
    assert_eq!(channel.length(), 0);
    assert!(port_manager.is_some());
    port_manager_destroy(&mut channel, port_manager);
}

#[test]
fn new_port_manager_failure_wrong_storage_path() {
    let mut channel = ErrorChannel::new();
    let port_manager = port_manager_new(&mut channel, Some(b"/some/wrong/path\0"), created);
    assert!(port_manager.is_none());
    assert!(channel.length() > 0);
}

#[test]
fn new_port_manager_failure_null() {
    let mut channel = ErrorChannel::new();
    let port_manager = port_manager_new(&mut channel, None, created);
    assert!(port_manager.is_none());
    assert!(channel.length() > 0);
}

#[test]
fn destroy_port_manager_failure() {
    let mut channel = ErrorChannel::new();
    port_manager_destroy::<PortManagerMock>(&mut channel, None);
    assert!(channel.length() > 0);
}

#[test]
fn add_port_mappings_success() {
    let mut channel = ErrorChannel::new();
    let mut port_manager = PortManagerMock::new();

    let mappings = PortMappings {
        array: Some(vec![
            PortMapping {
                host_ip: Some(b"127.0.0.1\0".to_vec()),
                host_port: 8080,
                container_port: 8080,
                protocol: Some(b"tcp\0".to_vec()),
            },
            PortMapping {
                host_ip: Some(b"127.0.0.1\0".to_vec()),
                host_port: 8081,
                container_port: 8081,
                protocol: Some(b"tcp\0".to_vec()),
            },
        ]),
        length: 2,
    };

    port_manager_add(
        &mut channel,
        port_manager.as_mut(),
        Some(b"id\0"),
        Some(b"127.0.0.1/8\0"),
        Some(&mappings),
        &parse_host,
    );
    assert_eq!(channel.length(), 0);

    port_manager_destroy(&mut channel, port_manager);
    assert_eq!(channel.length(), 0);
}

#[test]
fn add_port_mappings_failure_port_manager_null() {
    let mut channel = ErrorChannel::new();
    let mappings = PortMappings { array: Some(vec![]), length: 0 };

    port_manager_add::<PortManagerMock, _>(
        &mut channel,
        None,
        Some(b"id\0"),
        Some(b"127.0.0.1/8\0"),
        Some(&mappings),
        &parse_host,
    );
    assert!(channel.length() > 0);
}

#[test]
fn add_port_mappings_failure_id_null() {
    let mut channel = ErrorChannel::new();
    let mut port_manager = PortManagerMock::new();

    let mappings = PortMappings { array: Some(vec![]), length: 0 };

    port_manager_add(
        &mut channel,
        port_manager.as_mut(),
        None,
        Some(b"127.0.0.1/8\0"),
        Some(&mappings),
        &parse_host,
    );
    assert!(channel.length() > 0);

    port_manager_destroy(&mut channel, port_manager);
    assert_eq!(channel.length(), 0);
}

#[test]
fn add_port_mappings_failure_container_network_null() {
    let mut channel = ErrorChannel::new();
    let mut port_manager = PortManagerMock::new();

    let mappings = PortMappings { array: Some(vec![]), length: 0 };

    port_manager_add(
        &mut channel,
        port_manager.as_mut(),
        Some(b"id\0"),
        None,
        Some(&mappings),
        &parse_host,
    );
    assert!(channel.length() > 0);

    port_manager_destroy(&mut channel, port_manager);
    assert_eq!(channel.length(), 0);
}

#[test]
fn add_port_mappings_failure_port_mappings_null() {
    let mut channel = ErrorChannel::new();
    let mut port_manager = PortManagerMock::new();

    port_manager_add(
        &mut channel,
        port_manager.as_mut(),
        Some(b"id\0"),
        Some(b"127.0.0.1/8\0"),
        None,
        &parse_host,
    );
    assert!(channel.length() > 0);

    port_manager_destroy(&mut channel, port_manager);
    assert_eq!(channel.length(), 0);
}

#[test]
fn add_port_mappings_failure_port_mapping_host_ip_null() {
    let mut channel = ErrorChannel::new();
    let mut port_manager = PortManagerMock::new();

    let mappings = PortMappings {
        array: Some(vec![PortMapping {
            host_ip: None,
            host_port: 8080,
            container_port: 8080,
            protocol: Some(b"tcp\0".to_vec()),
        }]),
        length: 1,
    };

    port_manager_add(
        &mut channel,
        port_manager.as_mut(),
        Some(b"id\0"),
        Some(b"127.0.0.1/8\0"),
        Some(&mappings),
        &parse_host,
    );
    assert!(channel.length() > 0);

    port_manager_destroy(&mut channel, port_manager);
    assert_eq!(channel.length(), 0);
}

#[test]
fn add_port_mappings_failure_port_mapping_protocol_null() {
    let mut channel = ErrorChannel::new();
    let mut port_manager = PortManagerMock::new();

    let mappings = PortMappings {
        array: Some(vec![PortMapping {
            host_ip: Some(b"127.0.0.1\0".to_vec()),
            host_port: 8080,
            container_port: 8080,
            protocol: None,
        }]),
        length: 1,
    };

    port_manager_add(
        &mut channel,
        port_manager.as_mut(),
        Some(b"id\0"),
        Some(b"127.0.0.1/8\0"),
        Some(&mappings),
        &parse_host,
    );
    assert!(channel.length() > 0);

    port_manager_destroy(&mut channel, port_manager);
    assert_eq!(channel.length(), 0);
}

#[test]
fn remove_port_mappings_success() {
    let mut channel = ErrorChannel::new();
    let mut port_manager = PortManagerMock::new();

    port_manager_remove(&mut channel, port_manager.as_mut(), Some(b"id\0"));
    assert_eq!(channel.length(), 0);

    port_manager_destroy(&mut channel, port_manager);
    assert_eq!(channel.length(), 0);
}

#[test]
fn remove_port_mappings_failure_port_manager_null() {
    let mut channel = ErrorChannel::new();
    port_manager_remove::<PortManagerMock>(&mut channel, None, Some(b"id\0"));
    assert!(channel.length() > 0);
}

#[test]
fn remove_port_mappings_failure_id_null() {
    let mut channel = ErrorChannel::new();
    let mut port_manager = PortManagerMock::new();

    port_manager_remove(&mut channel, port_manager.as_mut(), None);
    assert!(channel.length() > 0);

    port_manager_destroy(&mut channel, port_manager);
    assert_eq!(channel.length(), 0);
}

#[test]
fn lifecycle_leaves_the_channel_empty_after_each_step() {
    let mut channel = ErrorChannel::new();
    channel.set("left over".to_string());

    let mut port_manager =
        port_manager_new(&mut channel, Some(b"/tmp/validdir\0"), |_| Ok(Recorder::answering(Ok(()))));
    assert!(port_manager.is_some());
    assert_eq!(channel.length(), 0);

    let mappings = batch(vec![mapping(Some(b"127.0.0.1\0"), 8080, 8080, Some(b"tcp\0"))]);
    port_manager_add(
        &mut channel,
        port_manager.as_mut(),
        Some(b"c1\0"),
        Some(b"10.0.0.0/8\0"),
        Some(&mappings),
        &parse_host,
    );
    assert_eq!(channel.length(), 0);

    port_manager_remove(&mut channel, port_manager.as_mut(), Some(b"c1\0"));
    assert_eq!(channel.length(), 0);

    let service = port_manager.clone().unwrap();
    assert_eq!(
        service.added,
        vec![(
            "c1".to_string(),
            ContainerNetwork::V4 { address: 0x0a00_0000, prefix: 8 },
            vec![NativePortMapping {
                host: SocketAddress::V4 { address: 0x7f00_0001, port: 8080 },
                container_port: 8080,
                protocol: "tcp".to_string(),
            }],
        )]
    );
    assert_eq!(service.removed, vec!["c1".to_string()]);

    port_manager_destroy(&mut channel, port_manager);
    assert_eq!(channel.length(), 0);
}

#[test]
fn create_hands_the_storage_path_to_the_constructor() {
    let mut seen = String::new();
    let result = port_manager_new_res(Some(b"/var/lib/ports\0rest"), |path: &str| {
        seen = path.to_string();
        Ok::<PortManagerMock, ServiceFailure>(PortManagerMock)
    });
    assert!(result.is_ok());
    assert_eq!(seen, "/var/lib/ports");
}

#[test]
fn create_reports_each_failure() {
    let null = port_manager_new_res(None, created).err().unwrap();
    assert_eq!(null.kind, ErrorKind::InvalidArgument);
    assert_eq!(null.message, "provided storage path is NULL");

    let malformed = port_manager_new_res(Some(&[0xff, 0xfe, 0]), created).err().unwrap();
    assert_eq!(malformed.kind, ErrorKind::InvalidArgument);
    assert_eq!(malformed.message, "convert storage path string");

    let refused = port_manager_new_res(Some(b"/some/wrong/path\0"), created).err().unwrap();
    assert_eq!(refused.kind, ErrorKind::InitializationError);
    assert_eq!(refused.message, "create port manager: no such directory");

    let no_context = port_manager_new_res(Some(b"/tmp\0"), |_| {
        Err::<PortManagerMock, ServiceFailure>(ServiceFailure::ExecutionContext(
            "too many open files".to_string(),
        ))
    })
    .err()
    .unwrap();
    assert_eq!(no_context.kind, ErrorKind::InternalError);
    assert_eq!(no_context.message, "create port manager: too many open files");
}

#[test]
fn create_does_not_construct_for_a_path_that_is_not_valid() {
    let mut calls = 0;
    let mut channel = ErrorChannel::new();
    let absent = port_manager_new(&mut channel, None, |_| {
        calls += 1;
        Ok::<PortManagerMock, ServiceFailure>(PortManagerMock)
    });
    assert!(absent.is_none());
    assert_eq!(message(&channel), "provided storage path is NULL");
    let malformed = port_manager_new(&mut channel, Some(&[0xc3, 0x28]), |_| {
        calls += 1;
        Ok::<PortManagerMock, ServiceFailure>(PortManagerMock)
    });
    assert!(malformed.is_none());
    assert_eq!(message(&channel), "convert storage path string");
    assert_eq!(calls, 0);
}

#[test]
fn destroy_reports_an_absent_handle_by_name() {
    let mut channel = ErrorChannel::new();
    port_manager_destroy::<PortManagerMock>(&mut channel, None);
    assert_eq!(message(&channel), "provided port manager is NULL");
    port_manager_destroy(&mut channel, Some(PortManagerMock));
    assert_eq!(channel.length(), 0);
}

#[test]
fn add_checks_the_four_inputs_in_order() {
    let mappings = batch(vec![]);
    let absent = port_manager_add_res::<Recorder, _>(None, None, None, None, &parse_host);
    assert_eq!(absent.err().unwrap().message, "provided port manager is NULL");

    let mut service = Recorder::answering(Ok(()));
    let id = port_manager_add_res(Some(&mut service), None, None, None, &parse_host);
    assert_eq!(id.err().unwrap().message, "provided ID is NULL");

    let network = port_manager_add_res(Some(&mut service), Some(b"id\0"), None, None, &parse_host);
    assert_eq!(network.err().unwrap().message, "provided container network is NULL");

    let batch_absent = port_manager_add_res(
        Some(&mut service),
        Some(b"id\0"),
        Some(b"10.0.0.0/8\0"),
        None,
        &parse_host,
    );
    let batch_absent = batch_absent.err().unwrap();
    assert_eq!(batch_absent.kind, ErrorKind::InvalidArgument);
    assert_eq!(batch_absent.message, "provided port mappings are NULL");

    let all = port_manager_add_res(
        Some(&mut service),
        Some(b"id\0"),
        Some(b"10.0.0.0/8\0"),
        Some(&mappings),
        &parse_host,
    );
    assert_eq!(all, Ok(()));
    assert_eq!(service.added.len(), 1);
}

#[test]
fn add_validates_records_then_network_text_then_id_then_network() {
    let mut service = Recorder::answering(Ok(()));
    let bad_record = batch(vec![mapping(Some(b"not an address\0"), 1, 1, Some(b"tcp\0"))]);
    let good = batch(vec![mapping(Some(b"127.0.0.1\0"), 1, 1, Some(b"tcp\0"))]);

    let first = port_manager_add_res(
        Some(&mut service),
        Some(&[0xff, 0]),
        Some(&[0xff, 0]),
        Some(&bad_record),
        &parse_host,
    )
    .err()
    .unwrap();
    assert_eq!(first.kind, ErrorKind::ParseError);
    assert_eq!(first.message, "parse socket address not an address:1");

    let second = port_manager_add_res(
        Some(&mut service),
        Some(&[0xff, 0]),
        Some(&[0xff, 0]),
        Some(&good),
        &parse_host,
    )
    .err()
    .unwrap();
    assert_eq!(second.kind, ErrorKind::InvalidArgument);
    assert_eq!(second.message, "convert container network string");

    let third = port_manager_add_res(
        Some(&mut service),
        Some(&[0xff, 0]),
        Some(b"10.0.0.0/99\0"),
        Some(&good),
        &parse_host,
    )
    .err()
    .unwrap();
    assert_eq!(third.kind, ErrorKind::InvalidArgument);
    assert_eq!(third.message, "convert ID string");

    let fourth = port_manager_add_res(
        Some(&mut service),
        Some(b"id\0"),
        Some(b"10.0.0.0/99\0"),
        Some(&good),
        &parse_host,
    )
    .err()
    .unwrap();
    assert_eq!(fourth.kind, ErrorKind::ParseError);
    assert_eq!(fourth.message, "parse container network 10.0.0.0/99");

    assert!(service.added.is_empty());
}

#[test]
fn add_with_one_malformed_record_adds_nothing() {
    let mut channel = ErrorChannel::new();
    let mut service = Recorder::answering(Ok(()));
    let before = service.clone();
    let mappings = batch(vec![
        mapping(Some(b"127.0.0.1\0"), 8080, 8080, Some(b"tcp\0")),
        mapping(Some(b"localhost\0"), 8081, 8081, Some(b"tcp\0")),
        mapping(Some(b"127.0.0.1\0"), 8082, 8082, Some(b"tcp\0")),
    ]);
    port_manager_add(
        &mut channel,
        Some(&mut service),
        Some(b"c1\0"),
        Some(b"10.0.0.0/8\0"),
        Some(&mappings),
        &parse_host,
    );
    assert_eq!(message(&channel), "parse socket address localhost:8081");
    assert_eq!(service, before);
}

#[test]
fn add_with_an_absent_host_ip_never_reaches_the_service() {
    let mut channel = ErrorChannel::new();
    let mut service = Recorder::answering(Ok(()));
    let mappings = batch(vec![mapping(None, 8080, 8080, Some(b"tcp\0"))]);
    port_manager_add(
        &mut channel,
        Some(&mut service),
        Some(b"c1\0"),
        Some(b"10.0.0.0/8\0"),
        Some(&mappings),
        &parse_host,
    );
    assert!(channel.length() > 0);
    assert_eq!(message(&channel), "port mapping host IP is NULL");
    assert!(service.added.is_empty());
    assert!(service.removed.is_empty());
}

#[test]
fn add_asks_the_parser_up_to_the_first_record_that_is_not_valid() {
    let asked = std::cell::RefCell::new(Vec::new());
    let parser = |text: &str| {
        asked.borrow_mut().push(text.to_string());
        parse_host(text)
    };
    let mut service = Recorder::answering(Ok(()));
    let mappings = batch(vec![
        mapping(Some(b"10.1.1.1\0"), 1, 1, Some(b"tcp\0")),
        mapping(Some(b"10.1.1.2\0"), 2, 2, None),
        mapping(Some(b"10.1.1.3\0"), 3, 3, Some(b"tcp\0")),
    ]);
    let outcome = port_manager_add_res(
        Some(&mut service),
        Some(b"c1\0"),
        Some(b"10.0.0.0/8\0"),
        Some(&mappings),
        &parser,
    );
    assert_eq!(outcome.err().unwrap().message, "port mapping protocol is NULL");
    assert_eq!(*asked.borrow(), vec!["10.1.1.1:1".to_string(), "10.1.1.2:2".to_string()]);
    assert!(service.added.is_empty());
}

#[test]
fn add_hands_over_the_records_in_the_order_of_the_batch() {
    let mut service = Recorder::answering(Ok(()));
    let mappings = batch(vec![
        mapping(Some(b"192.168.0.1\0"), 443, 8443, Some(b"tcp\0")),
        mapping(Some(b"[::1]\0"), 53, 5353, Some(b"udp\0")),
        mapping(Some(b"0.0.0.0\0"), 0, 65535, Some(b"sctp\0")),
    ]);
    let outcome = port_manager_add_res(
        Some(&mut service),
        Some(b"container\0"),
        Some(b"fd00::/64\0"),
        Some(&mappings),
        &parse_host,
    );
    assert_eq!(outcome, Ok(()));
    assert_eq!(
        service.added,
        vec![(
            "container".to_string(),
            ContainerNetwork::V6 { address: 0xfd00 << 112, prefix: 64 },
            vec![
                NativePortMapping {
                    host: SocketAddress::V4 { address: 0xc0a8_0001, port: 443 },
                    container_port: 8443,
                    protocol: "tcp".to_string(),
                },
                NativePortMapping {
                    host: SocketAddress::V6 { address: 1, port: 53, flow_info: 0, scope_id: 0 },
                    container_port: 5353,
                    protocol: "udp".to_string(),
                },
                NativePortMapping {
                    host: SocketAddress::V4 { address: 0, port: 0 },
                    container_port: 65535,
                    protocol: "sctp".to_string(),
                },
            ],
        )]
    );
}

#[test]
fn add_reports_what_the_service_answers() {
    let mappings = batch(vec![]);
    let mut failing =
        Recorder::answering(Err(ServiceFailure::Operation("port 8080 is taken".to_string())));
    let failed = port_manager_add_res(
        Some(&mut failing),
        Some(b"id\0"),
        Some(b"10.0.0.0/8\0"),
        Some(&mappings),
        &parse_host,
    )
    .err()
    .unwrap();
    assert_eq!(failed.kind, ErrorKind::ServiceError);
    assert_eq!(failed.message, "add port mappings: port 8080 is taken");
    assert_eq!(failing.added.len(), 1);

    let mut stuck = Recorder::answering(Err(ServiceFailure::ExecutionContext(
        "too many open files".to_string(),
    )));
    let no_context = port_manager_add_res(
        Some(&mut stuck),
        Some(b"id\0"),
        Some(b"10.0.0.0/8\0"),
        Some(&mappings),
        &parse_host,
    )
    .err()
    .unwrap();
    assert_eq!(no_context.kind, ErrorKind::InternalError);
    assert_eq!(no_context.message, "add port mappings: too many open files");
    assert_eq!(stuck.added.len(), 1);
}

#[test]
fn add_accepts_an_absent_array_of_no_records() {
    let mut channel = ErrorChannel::new();
    let mut service = Recorder::answering(Ok(()));
    let mappings = PortMappings { array: None, length: 0 };
    port_manager_add(
        &mut channel,
        Some(&mut service),
        Some(b"c1\0"),
        Some(b"10.0.0.0/8\0"),
        Some(&mappings),
        &parse_host,
    );
    assert_eq!(channel.length(), 0);
    assert_eq!(
        service.added,
        vec![("c1".to_string(), ContainerNetwork::V4 { address: 0x0a00_0000, prefix: 8 }, vec![])]
    );
}

#[test]
fn add_then_remove_does_not_fail_for_any_number_of_records() {
    for n in [0u16, 1, 2, 17, 300] {
        let mut channel = ErrorChannel::new();
        let mut service = Recorder::answering(Ok(()));
        let records: Vec<PortMapping> = (0..n)
            .map(|i| mapping(Some(b"127.0.0.1\0"), 1000 + i, 2000 + i, Some(b"tcp\0")))
            .collect();
        let mappings = batch(records);
        port_manager_add(
            &mut channel,
            Some(&mut service),
            Some(b"c1\0"),
            Some(b"10.0.0.0/8\0"),
            Some(&mappings),
            &parse_host,
        );
        assert_eq!(channel.length(), 0);
        port_manager_remove(&mut channel, Some(&mut service), Some(b"c1\0"));
        assert_eq!(channel.length(), 0);
        assert_eq!(service.added.len(), 1);
        assert_eq!(service.added[0].2.len(), n as usize);
        for (i, native) in service.added[0].2.iter().enumerate() {
            assert_eq!(native.host, SocketAddress::V4 { address: 0x7f00_0001, port: 1000 + i as u16 });
            assert_eq!(native.container_port, 2000 + i as u16);
        }
        assert_eq!(service.removed, vec!["c1".to_string()]);
    }
}

#[test]
fn remove_reports_each_failure() {
    let absent = port_manager_remove_res::<Recorder>(None, None).err().unwrap();
    assert_eq!(absent.kind, ErrorKind::InvalidArgument);
    assert_eq!(absent.message, "provided port manager is NULL");

    let mut service =
        Recorder::answering(Err(ServiceFailure::Operation("no such container".to_string())));
    let id = port_manager_remove_res(Some(&mut service), None).err().unwrap();
    assert_eq!(id.kind, ErrorKind::InvalidArgument);
    assert_eq!(id.message, "provided ID is NULL");

    let malformed = port_manager_remove_res(Some(&mut service), Some(&[b'a', 0x80])).err().unwrap();
    assert_eq!(malformed.kind, ErrorKind::InvalidArgument);
    assert_eq!(malformed.message, "convert ID string");
    assert!(service.removed.is_empty());

    let failed = port_manager_remove_res(Some(&mut service), Some(b"gone\0")).err().unwrap();
    assert_eq!(failed.kind, ErrorKind::ServiceError);
    assert_eq!(failed.message, "remove port mappings: no such container");
    assert_eq!(service.removed, vec!["gone".to_string()]);

    let mut stuck = Recorder::answering(Err(ServiceFailure::ExecutionContext(String::new())));
    let no_context = port_manager_remove_res(Some(&mut stuck), Some(b"gone\0")).err().unwrap();
    assert_eq!(no_context.kind, ErrorKind::InternalError);
    assert_eq!(no_context.message, "remove port mappings: ");
    assert_eq!(stuck.removed, vec!["gone".to_string()]);
}

#[test]
fn a_call_touches_only_the_channel_it_is_given() {
    let mut first = ErrorChannel::new();
    let mut second = ErrorChannel::new();
    port_manager_destroy::<PortManagerMock>(&mut first, None);
    assert!(first.length() > 0);
    assert_eq!(second.length(), 0);

    port_manager_remove::<PortManagerMock>(&mut second, None, None);
    port_manager_destroy(&mut first, Some(PortManagerMock));
    assert_eq!(first.length(), 0);
    assert_eq!(message(&second), "provided port manager is NULL");
}

#[test]
fn add_refuses_a_protocol_that_is_no_recognized_transport() {
    let mut channel = ErrorChannel::new();
    let mut service = Recorder::answering(Ok(()));
    let mappings = batch(vec![mapping(Some(b"127.0.0.1\0"), 8080, 8080, Some(b"bogus\0"))]);
    let outcome = port_manager_add_res(
        Some(&mut service),
        Some(b"c1\0"),
        Some(b"10.0.0.0/8\0"),
        Some(&mappings),
        &parse_host,
    )
    .err()
    .unwrap();
    assert_eq!(outcome.kind, ErrorKind::ParseError);
    assert_eq!(outcome.message, "parse protocol bogus");
    port_manager_add(
        &mut channel,
        Some(&mut service),
        Some(b"c1\0"),
        Some(b"10.0.0.0/8\0"),
        Some(&mappings),
        &parse_host,
    );
    assert_eq!(message(&channel), "parse protocol bogus");
    assert!(service.added.is_empty());
}

#[test]
fn a_failing_service_leaves_a_message_that_carries_the_cause() {
    let mut channel = ErrorChannel::new();
    let mut service =
        Recorder::answering(Err(ServiceFailure::Operation("firewall rule refused".to_string())));
    let mappings = batch(vec![mapping(Some(b"127.0.0.1\0"), 8080, 8080, Some(b"udp\0"))]);
    port_manager_add(
        &mut channel,
        Some(&mut service),
        Some(b"c1\0"),
        Some(b"10.0.0.0/8\0"),
        Some(&mappings),
        &parse_host,
    );
    assert!(channel.length() > 0);
    assert_eq!(message(&channel), "add port mappings: firewall rule refused");
    assert_eq!(service.added.len(), 1);

    port_manager_remove(&mut channel, Some(&mut service), Some(b"c1\0"));
    assert_eq!(message(&channel), "remove port mappings: firewall rule refused");
    assert_eq!(service.removed, vec!["c1".to_string()]);

    let absent = port_manager_new(&mut channel, Some(b"/tmp\0"), |_| {
        Err::<PortManagerMock, ServiceFailure>(ServiceFailure::Operation(
            "storage is read-only".to_string(),
        ))
    });
    assert!(absent.is_none());
    assert_eq!(message(&channel), "create port manager: storage is read-only");
}
