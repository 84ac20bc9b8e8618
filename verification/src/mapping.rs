//! Port mappings as they arrive at the boundary, and what becomes of them:
//! each record is validated in a fixed order and handed on only if every
//! record of its batch is valid.

use crate::address::SocketAddress;
use crate::error::{failure, BoundaryError, ErrorKind, ErrorView};
use crate::text::{append_decimal, joined, decimal, read_text, text_of};
use vstd::prelude::*;

verus! {

/// A port mapping as the caller supplies it. The two texts are buffers that
/// may be absent and need not hold valid text.
#[derive(Clone, Debug, PartialEq, Eq)]
pub struct PortMapping {
    /// The IP address on the host, as text.
    pub host_ip: Option<Vec<u8>>,
    /// The port number on the host.
    pub host_port: u16,
    /// The port number inside the container.
    pub container_port: u16,
    /// The name of the protocol.
    pub protocol: Option<Vec<u8>>,
}

/// A batch of port mappings as the caller supplies it: an array that may be
/// absent, and the number of records to read from it.
#[derive(Clone, Debug, PartialEq, Eq)]
pub struct PortMappings {
    /// The records.
    pub array: Option<Vec<PortMapping>>,
    /// The number of records of `array` that belong to the batch.
    pub length: usize,
}

/// A validated port mapping, as the service receives it.
#[derive(Clone, Debug, PartialEq, Eq)]
pub struct NativePortMapping {
    /// The socket address on the host.
    pub host: SocketAddress,
    /// The port number inside the container.
    pub container_port: u16,
    /// The name of the protocol.
    pub protocol: String,
}

/// The mathematical value of a `NativePortMapping`.
pub struct NativeView {
    pub host: SocketAddress,
    pub container_port: u16,
    pub protocol: Seq<char>,
}

impl View for NativePortMapping {
    type V = NativeView;

    open spec fn view(&self) -> NativeView {
        NativeView { host: self.host, container_port: self.container_port, protocol: self.protocol@ }
    }
}

/// The values of a sequence of validated mappings, in the same order.
pub open spec fn native_views(natives: Seq<NativePortMapping>) -> Seq<NativeView> {
    natives.map_values(|n: NativePortMapping| n@)
}

/// The result of marshalling one record, by its views.
pub open spec fn record_view(result: Result<NativePortMapping, BoundaryError>) -> Result<
    NativeView,
    ErrorView,
> {
    match result {
        Ok(native) => Ok(native@),
        Err(e) => Err(e@),
    }
}

/// The result of marshalling a batch, by its views.
pub open spec fn batch_view(result: Result<Vec<NativePortMapping>, BoundaryError>) -> Result<
    Seq<NativeView>,
    ErrorView,
> {
    match result {
        Ok(natives) => Ok(native_views(natives@)),
        Err(e) => Err(e@),
    }
}

/// A text result, by its views.
pub open spec fn text_view(result: Result<String, BoundaryError>) -> Result<Seq<char>, ErrorView> {
    match result {
        Ok(text) => Ok(text@),
        Err(e) => Err(e@),
    }
}

/// Whether `name` is a recognized transport: `tcp`, `udp` or `sctp`, in lower
/// case.
pub open spec fn recognized_transport(name: Seq<char>) -> bool {
    name == "tcp"@ || name == "udp"@ || name == "sctp"@
}

/// Whether `name` is a recognized transport.
pub fn is_recognized_transport(name: &str) -> (recognized: bool)
    ensures
        recognized == recognized_transport(name@),
{
    let name = String::from_str(name);
    name == String::from_str("tcp") || name == String::from_str("udp") || name == String::from_str(
        "sctp",
    )
}

/// Whether `host` is an answer that the parser may give for `text`.
pub open spec fn answers<P: Fn(&str) -> Option<SocketAddress>>(
    parse_host: &P,
    text: Seq<char>,
    host: Option<SocketAddress>,
) -> bool {
    exists|t: &str| t@ == text && parse_host.ensures((t,), host)
}

impl PortMapping {
    /// The text that is parsed as the socket address of the host: the host IP,
    /// a colon and the host port in decimal. A failure where the host IP is
    /// absent or is not valid text.
    pub open spec fn socket_text(&self) -> Result<Seq<char>, ErrorView> {
        match self.host_ip {
            None => Err(failure(ErrorKind::InvalidArgument, "port mapping host IP is NULL"@)),
            Some(ip) => match text_of(ip@) {
                None => Err(failure(ErrorKind::InvalidArgument, "convert host IP string"@)),
                Some(text) => Ok(text + ":"@ + decimal(self.host_port as nat)),
            },
        }
    }

    /// The name of the protocol. A failure where it is absent or is not valid
    /// text, and a parse failure that names the text where it is no
    /// recognized transport.
    pub open spec fn protocol_text(&self) -> Result<Seq<char>, ErrorView> {
        match self.protocol {
            None => Err(failure(ErrorKind::InvalidArgument, "port mapping protocol is NULL"@)),
            Some(protocol) => match text_of(protocol@) {
                None => Err(failure(ErrorKind::InvalidArgument, "convert protocol string"@)),
                Some(text) => if recognized_transport(text) {
                    Ok(text)
                } else {
                    Err(failure(ErrorKind::ParseError, "parse protocol "@ + text))
                },
            },
        }
    }

    /// What becomes of the record once the parser has answered `host` for its
    /// socket text. The host comes first: its text, then its address, a parse
    /// failure naming the text where the parser gave none. The protocol comes
    /// second: its text, then its name.
    pub open spec fn marshalled(&self, host: Option<SocketAddress>) -> Result<
        NativeView,
        ErrorView,
    > {
        match self.socket_text() {
            Err(e) => Err(e),
            Ok(text) => match host {
                None => Err(failure(ErrorKind::ParseError, "parse socket address "@ + text)),
                Some(address) => match self.protocol_text() {
                    Err(e) => Err(e),
                    Ok(protocol) => Ok(
                        NativeView {
                            host: address,
                            container_port: self.container_port,
                            protocol,
                        },
                    ),
                },
            },
        }
    }

    /// Whether `host` may stand for the parser's answer on this record: where
    /// the record has a socket text, the parser may give `host` for it.
    pub open spec fn consulted<P: Fn(&str) -> Option<SocketAddress>>(
        &self,
        parse_host: &P,
        host: Option<SocketAddress>,
    ) -> bool {
        self.socket_text() matches Ok(text) ==> answers(parse_host, text, host)
    }

    /// Composes the text that is parsed as the socket address of the host.
    pub fn compose_socket_text(&self) -> (result: Result<String, BoundaryError>)
        ensures
            text_view(result) == self.socket_text(),
    {
        match &self.host_ip {
            None => Err(
                BoundaryError::new(ErrorKind::InvalidArgument, "port mapping host IP is NULL"),
            ),
            Some(ip) => match read_text(ip.as_slice()) {
                None => Err(
                    BoundaryError::new(ErrorKind::InvalidArgument, "convert host IP string"),
                ),
                Some(text) => {
                    let mut composed = joined(text, ":");
                    append_decimal(&mut composed, self.host_port);
                    Ok(composed)
                },
            },
        }
    }

    /// Reads the name of the protocol.
    pub fn read_protocol(&self) -> (result: Result<String, BoundaryError>)
        ensures
            text_view(result) == self.protocol_text(),
    {
        match &self.protocol {
            None => Err(
                BoundaryError::new(ErrorKind::InvalidArgument, "port mapping protocol is NULL"),
            ),
            Some(protocol) => match read_text(protocol.as_slice()) {
                None => Err(
                    BoundaryError::new(ErrorKind::InvalidArgument, "convert protocol string"),
                ),
                Some(text) => if is_recognized_transport(text) {
                    Ok(String::from_str(text))
                } else {
                    Err(
                        BoundaryError {
                            kind: ErrorKind::ParseError,
                            message: joined("parse protocol ", text),
                        },
                    )
                },
            },
        }
    }

    /// Finishes a record whose socket text is `text`, for which the parser
    /// answered `host`.
    fn finish(&self, text: &str, host: Option<SocketAddress>) -> (result: Result<
        NativePortMapping,
        BoundaryError,
    >)
        requires
            self.socket_text() == Ok::<Seq<char>, ErrorView>(text@),
        ensures
            record_view(result) == self.marshalled(host),
    {
        match host {
            None => Err(
                BoundaryError {
                    kind: ErrorKind::ParseError,
                    message: joined("parse socket address ", text),
                },
            ),
            Some(address) => match self.read_protocol() {
                Err(e) => Err(e),
                Ok(protocol) => Ok(
                    NativePortMapping {
                        host: address,
                        container_port: self.container_port,
                        protocol,
                    },
                ),
            },
        }
    }

    /// Validates the record, given the parser's answer `host` for its socket
    /// text.
    pub fn marshal_with(&self, host: Option<SocketAddress>) -> (result: Result<
        NativePortMapping,
        BoundaryError,
    >)
        ensures
            record_view(result) == self.marshalled(host),
    {
        match self.compose_socket_text() {
            Err(e) => Err(e),
            Ok(text) => self.finish(text.as_str(), host),
        }
    }

    /// Validates the record. The parser is asked for the socket address of the
    /// host once, and only where the record has a socket text.
    pub fn marshal<P: Fn(&str) -> Option<SocketAddress>>(&self, parse_host: &P) -> (result: Result<
        NativePortMapping,
        BoundaryError,
    >)
        requires
            forall|t: &str| parse_host.requires((t,)),
        ensures
            exists|host: Option<SocketAddress>|
                self.consulted(parse_host, host) && record_view(result) == self.marshalled(host),
    {
        match self.compose_socket_text() {
            Err(e) => {
                assert(self.consulted(parse_host, None) && record_view(Err(e)) == self.marshalled(
                    None,
                ));
                Err(e)
            },
            Ok(text) => {
                let host = parse_host(text.as_str());
                let result = self.finish(text.as_str(), host);
                assert(self.consulted(parse_host, host) && record_view(result) == self.marshalled(
                    host,
                ));
                result
            },
        }
    }
}

/// What becomes of the first `n` records of a batch, where `hosts` holds the
/// parser's answer for each record: the validated records in their order, or
/// the failure of the first record that is not valid.
pub open spec fn marshalled_prefix(
    records: Seq<PortMapping>,
    hosts: Seq<Option<SocketAddress>>,
    n: nat,
) -> Result<Seq<NativeView>, ErrorView>
    decreases n,
{
    if n == 0 {
        Ok(Seq::empty())
    } else {
        match marshalled_prefix(records, hosts, (n - 1) as nat) {
            Err(e) => Err(e),
            Ok(done) => match records[n - 1].marshalled(hosts[n - 1]) {
                Err(e) => Err(e),
                Ok(native) => Ok(done.push(native)),
            },
        }
    }
}

/// A failure among the first `n` records is the failure of every longer
/// prefix.
pub proof fn lemma_failure_stays(
    records: Seq<PortMapping>,
    hosts: Seq<Option<SocketAddress>>,
    n: nat,
    m: nat,
)
    requires
        n <= m,
        marshalled_prefix(records, hosts, n) is Err,
    ensures
        marshalled_prefix(records, hosts, m) == marshalled_prefix(records, hosts, n),
    decreases m,
{
    if n < m {
        lemma_failure_stays(records, hosts, n, (m - 1) as nat);
    }
}

/// What becomes of the first `n` records depends on the answers for those
/// records only.
pub proof fn lemma_only_consulted_hosts(
    records: Seq<PortMapping>,
    hosts: Seq<Option<SocketAddress>>,
    others: Seq<Option<SocketAddress>>,
    n: nat,
)
    requires
        forall|i: int| 0 <= i < n ==> hosts[i] == others[i],
    ensures
        marshalled_prefix(records, hosts, n) == marshalled_prefix(records, others, n),
    decreases n,
{
    if n > 0 {
        lemma_only_consulted_hosts(records, hosts, others, (n - 1) as nat);
    }
}

/// A prefix is accepted exactly if each of its records is, and the validated
/// records then stand in the order of the batch.
pub proof fn lemma_accepted_prefix(
    records: Seq<PortMapping>,
    hosts: Seq<Option<SocketAddress>>,
    n: nat,
)
    ensures
        marshalled_prefix(records, hosts, n) is Ok <==> forall|i: int|
            0 <= i < n ==> (#[trigger] records[i]).marshalled(hosts[i]) is Ok,
        marshalled_prefix(records, hosts, n) matches Ok(natives) ==> {
            &&& natives.len() == n
            &&& forall|i: int|
                0 <= i < n ==> (#[trigger] records[i]).marshalled(hosts[i]) == Ok::<
                    NativeView,
                    ErrorView,
                >(natives[i])
        },
    decreases n,
{
    if n > 0 {
        lemma_accepted_prefix(records, hosts, (n - 1) as nat);
        if marshalled_prefix(records, hosts, (n - 1) as nat) is Ok {
            assert(records[n - 1].marshalled(hosts[n - 1]) is Ok <==> marshalled_prefix(
                records,
                hosts,
                n,
            ) is Ok);
        } else {
            let i = choose|i: int|
                0 <= i < n - 1 && !((#[trigger] records[i]).marshalled(hosts[i]) is Ok);
            assert(!(records[i].marshalled(hosts[i]) is Ok));
        }
    }
}

/// Where record `k` is the first that is not valid, its failure is the
/// failure of every prefix that holds it.
pub proof fn lemma_first_rejected(
    records: Seq<PortMapping>,
    hosts: Seq<Option<SocketAddress>>,
    k: nat,
    n: nat,
)
    requires
        k < n,
        forall|i: int| 0 <= i < k ==> (#[trigger] records[i]).marshalled(hosts[i]) is Ok,
        records[k as int].marshalled(hosts[k as int]) is Err,
    ensures
        marshalled_prefix(records, hosts, n) == Err::<Seq<NativeView>, ErrorView>(
            records[k as int].marshalled(hosts[k as int])->Err_0,
        ),
{
    lemma_accepted_prefix(records, hosts, k);
    assert(marshalled_prefix(records, hosts, k + 1) is Err);
    lemma_failure_stays(records, hosts, k + 1, n);
}

impl PortMappings {
    /// The records of the batch: the first `length` records of the array. An
    /// absent array is a batch of no records; a failure where the array is
    /// absent or too short for a `length` that is not 0.
    pub open spec fn records(&self) -> Result<Seq<PortMapping>, ErrorView> {
        match self.array {
            None => if self.length == 0 {
                Ok(Seq::empty())
            } else {
                Err(failure(ErrorKind::InvalidArgument, "provided port mappings array is NULL"@))
            },
            Some(array) => if self.length <= array@.len() {
                Ok(array@.take(self.length as int))
            } else {
                Err(
                    failure(
                        ErrorKind::InvalidArgument,
                        "provided port mappings length exceeds the array"@,
                    ),
                )
            },
        }
    }

    /// What becomes of the batch, where `hosts` holds the parser's answer for
    /// each record: every record validated, in the order of the batch, or the
    /// first failure.
    pub open spec fn marshalled(&self, hosts: Seq<Option<SocketAddress>>) -> Result<
        Seq<NativeView>,
        ErrorView,
    > {
        match self.records() {
            Err(e) => Err(e),
            Ok(records) => marshalled_prefix(records, hosts, records.len()),
        }
    }

    /// Whether `hosts` may stand for the parser's answers on this batch: one
    /// answer for each record, and the parser may give it for each record up
    /// to the first that is not valid.
    pub open spec fn consulted<P: Fn(&str) -> Option<SocketAddress>>(
        &self,
        parse_host: &P,
        hosts: Seq<Option<SocketAddress>>,
    ) -> bool {
        self.records() matches Ok(records) ==> {
            &&& hosts.len() == records.len()
            &&& forall|i: int|
                0 <= i < records.len() && marshalled_prefix(records, hosts, i as nat) is Ok
                    ==> (#[trigger] records[i]).consulted(parse_host, hosts[i])
        }
    }

    /// The number of records to read, once the array is known to hold them.
    pub fn count(&self) -> (result: Result<usize, BoundaryError>)
        ensures
            self.records() matches Ok(records) ==> result == Ok::<usize, BoundaryError>(
                self.length,
            ) && records.len() == self.length,
            self.records() matches Err(e) ==> result matches Err(r) && r@ == e,
    {
        match &self.array {
            None => if self.length == 0 {
                Ok(0)
            } else {
                Err(
                    BoundaryError::new(
                        ErrorKind::InvalidArgument,
                        "provided port mappings array is NULL",
                    ),
                )
            },
            Some(array) => if self.length <= array.len() {
                Ok(self.length)
            } else {
                Err(
                    BoundaryError::new(
                        ErrorKind::InvalidArgument,
                        "provided port mappings length exceeds the array",
                    ),
                )
            },
        }
    }

    /// Validates the batch, given the parser's answers `hosts`, one for each
    /// record. Where there are fewer answers than records, the parser counts
    /// as having given none for the rest.
    pub fn marshal_with(&self, hosts: &[Option<SocketAddress>]) -> (result: Result<
        Vec<NativePortMapping>,
        BoundaryError,
    >)
        ensures
            batch_view(result) == self.marshalled(answers_for(hosts@, self.length as nat)),
    {
        let n = match self.count() {
            Err(e) => { return Err(e); },
            Ok(n) => n,
        };
        let mut natives: Vec<NativePortMapping> = Vec::new();
        if n == 0 {
            assert(native_views(natives@) =~= Seq::empty());
            return Ok(natives);
        }
        let array = match &self.array {
            None => { return Ok(natives); },
            Some(array) => array,
        };
        let ghost records = array@.take(n as int);
        let ghost answers = answers_for(hosts@, n as nat);
        assert(native_views(natives@) =~= Seq::empty());
        let mut i: usize = 0;
        while i < n
            invariant
                i <= n,
                n <= array@.len(),
                n == self.length,
                self.records() == Ok::<Seq<PortMapping>, ErrorView>(records),
                records == array@.take(n as int),
                answers == answers_for(hosts@, n as nat),
                marshalled_prefix(records, answers, i as nat) == Ok::<Seq<NativeView>, ErrorView>(
                    native_views(natives@),
                ),
            decreases n - i,
        {
            let host = if i < hosts.len() {
                hosts[i]
            } else {
                None
            };
            match array[i].marshal_with(host) {
                Err(e) => {
                    proof {
                        assert(marshalled_prefix(records, answers, (i + 1) as nat) is Err);
                        lemma_failure_stays(records, answers, (i + 1) as nat, n as nat);
                    }
                    return Err(e);
                },
                Ok(native) => {
                    proof {
                        assert(native_views(natives@.push(native)) =~= native_views(
                            natives@,
                        ).push(native@));
                    }
                    natives.push(native);
                },
            }
            i = i + 1;
        }
        Ok(natives)
    }

    /// Validates the batch. The parser is asked once for each record up to the
    /// first that is not valid, in the order of the batch.
    pub fn marshal<P: Fn(&str) -> Option<SocketAddress>>(&self, parse_host: &P) -> (result: Result<
        Vec<NativePortMapping>,
        BoundaryError,
    >)
        requires
            forall|t: &str| parse_host.requires((t,)),
        ensures
            exists|hosts: Seq<Option<SocketAddress>>|
                self.consulted(parse_host, hosts) && batch_view(result) == self.marshalled(hosts),
    {
        let n = match self.count() {
            Err(e) => {
                assert(self.consulted(parse_host, Seq::empty()) && batch_view(Err(e))
                    == self.marshalled(Seq::empty()));
                return Err(e);
            },
            Ok(n) => n,
        };
        let mut natives: Vec<NativePortMapping> = Vec::new();
        assert(native_views(natives@) =~= Seq::empty());
        let array = match &self.array {
            None => {
                assert(self.consulted(parse_host, Seq::empty()) && batch_view(Ok(natives))
                    == self.marshalled(Seq::empty()));
                return Ok(natives);
            },
            Some(array) => array,
        };
        let ghost records = array@.take(n as int);
        let ghost mut hosts: Seq<Option<SocketAddress>> = Seq::empty();
        let mut i: usize = 0;
        while i < n
            invariant
                i <= n,
                n <= array@.len(),
                n == self.length,
                self.records() == Ok::<Seq<PortMapping>, ErrorView>(records),
                records == array@.take(n as int),
                forall|t: &str| parse_host.requires((t,)),
                hosts.len() == i,
                forall|j: int| 0 <= j < i ==> (#[trigger] records[j]).consulted(parse_host, hosts[j]),
                marshalled_prefix(records, hosts, i as nat) == Ok::<Seq<NativeView>, ErrorView>(
                    native_views(natives@),
                ),
            decreases n - i,
        {
            let result = array[i].marshal(parse_host);
            let ghost host = choose|host: Option<SocketAddress>|
                records[i as int].consulted(parse_host, host) && record_view(result)
                    == records[i as int].marshalled(host);
            let ghost before = hosts;
            proof {
                hosts = hosts.push(host);
                lemma_only_consulted_hosts(records, before, hosts, i as nat);
            }
            match result {
                Err(e) => {
                    proof {
                        let all = hosts + Seq::new((n - i - 1) as nat, |j: int| None);
                        lemma_only_consulted_hosts(records, hosts, all, (i + 1) as nat);
                        assert(marshalled_prefix(records, all, (i + 1) as nat) is Err);
                        lemma_failure_stays(records, all, (i + 1) as nat, n as nat);
                        assert forall|j: int|
                            0 <= j < records.len() && marshalled_prefix(
                                records,
                                all,
                                j as nat,
                            ) is Ok implies (#[trigger] records[j]).consulted(
                            parse_host,
                            all[j],
                        ) by {
                            if j > i {
                                lemma_failure_stays(records, all, (i + 1) as nat, j as nat);
                            }
                        }
                        assert(self.consulted(parse_host, all));
                        assert(batch_view(Err(e)) == self.marshalled(all));
                    }
                    return Err(e);
                },
                Ok(native) => {
                    proof {
                        assert(native_views(natives@.push(native)) =~= native_views(
                            natives@,
                        ).push(native@));
                    }
                    natives.push(native);
                },
            }
            i = i + 1;
        }
        proof {
            assert(self.consulted(parse_host, hosts));
            assert(batch_view(Ok(natives)) == self.marshalled(hosts));
        }
        Ok(natives)
    }
}

/// The answers for a batch of `n` records that a caller's list stands for:
/// those of the list, and none for a record that the list does not reach.
pub open spec fn answers_for(hosts: Seq<Option<SocketAddress>>, n: nat) -> Seq<
    Option<SocketAddress>,
> {
    Seq::new(
        n,
        |i: int|
            if i < hosts.len() {
                hosts[i]
            } else {
                None
            },
    )
}

} // verus!
