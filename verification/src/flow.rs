use vstd::prelude::*;

use crate::capture_header::CaptureHeader;
use crate::endianness_aware_cursor::Endianness;
use crate::error::Error;
use crate::five_tuple::FiveTuple;
use crate::packet::Packet;
use crate::packet_dissection::{PacketDissection, SocketAddress};
use crate::packet_header::PacketHeader;
use crate::packet_layer::{LinkLayerType, TransportLayerType};

verus! {

/// A compact per-packet summary kept by a flow: the packet's direction
/// relative to the flow's initiator, its timestamp relative to the flow's
/// start, and its original on-wire size.
#[derive(Copy, Clone, Eq, PartialEq, Debug, Structural)]
pub struct FlowPacket {
    pub from_initiator_to_respondent: bool,
    pub timestamp: u64,
    pub size: u64,
}

/// The mathematical value of a `Flow`: the same fields over unbounded
/// integers and a sequence of per-packet summaries.
#[verifier::ext_equal]
pub ghost struct FlowModel {
    pub initiator: SocketAddress,
    pub respondent: SocketAddress,
    pub protocol: TransportLayerType,
    pub packet_count: int,
    pub total_size: int,
    pub average_size: int,
    pub minimum_size: int,
    pub maximum_size: int,
    pub flow_duration: int,
    pub average_interarrival_time: int,
    pub minimum_interarrival_time: int,
    pub maximum_interarrival_time: int,
    pub packets: Seq<FlowPacket>,
    pub flow_start: int,
    pub previous_timestamp: int,
}

/// The statistics of all packets sharing one five-tuple, folded in
/// timestamp order. The first packet fixes the initiator and respondent
/// endpoints and the flow's absolute start time; every later packet is
/// summarized relative to them.
pub struct Flow {
    initiator: SocketAddress,
    respondent: SocketAddress,
    protocol: TransportLayerType,
    packet_count: u64,
    total_size: u64,
    average_size: u64,
    minimum_size: u64,
    maximum_size: u64,
    flow_duration: u64,
    average_interarrival_time: u64,
    minimum_interarrival_time: u64,
    maximum_interarrival_time: u64,
    packets: Vec<FlowPacket>,
    flow_start: u64,
    previous_timestamp: u64,
}

impl View for Flow {
    type V = FlowModel;

    closed spec fn view(&self) -> FlowModel {
        FlowModel {
            initiator: self.initiator,
            respondent: self.respondent,
            protocol: self.protocol,
            packet_count: self.packet_count as int,
            total_size: self.total_size as int,
            average_size: self.average_size as int,
            minimum_size: self.minimum_size as int,
            maximum_size: self.maximum_size as int,
            flow_duration: self.flow_duration as int,
            average_interarrival_time: self.average_interarrival_time as int,
            minimum_interarrival_time: self.minimum_interarrival_time as int,
            maximum_interarrival_time: self.maximum_interarrival_time as int,
            packets: self.packets@,
            flow_start: self.flow_start as int,
            previous_timestamp: self.previous_timestamp as int,
        }
    }
}

/// The flow a single record starts: one packet, counted from its own
/// absolute time, with interarrival extremes still unset (the minimum at
/// the largest representable value, the maximum at zero) and the averages
/// left for finalization.
pub open spec fn new_flow_spec(header: PacketHeader, dissection: PacketDissection) -> FlowModel {
    let size = header.actual_length.0 as int;
    FlowModel {
        initiator: dissection.source_socket_address_spec(),
        respondent: dissection.destination_socket_address_spec(),
        protocol: dissection.network_layer.transport_layer_type_spec(),
        packet_count: 1,
        total_size: size,
        average_size: 0,
        minimum_size: size,
        maximum_size: size,
        flow_duration: 0,
        average_interarrival_time: 0,
        minimum_interarrival_time: u64::MAX as int,
        maximum_interarrival_time: 0,
        packets: seq![
            FlowPacket {
                from_initiator_to_respondent: true,
                timestamp: 0u64,
                size: header.actual_length.0 as u64,
            },
        ],
        flow_start: header.timestamp.nanos_spec() as int,
        previous_timestamp: 0,
    }
}

/// What inserting one more record into a flow does: the packet count and
/// running size statistics advance, the interarrival extremes absorb the
/// delta to the previous packet, and a per-packet summary is appended
/// whose direction flag says whether the record's endpoints equal the
/// initiator's.
pub open spec fn insert_packet_spec(
    m: FlowModel,
    header: PacketHeader,
    dissection: PacketDissection,
) -> FlowModel {
    let size = header.actual_length.0 as int;
    let timestamp = header.timestamp.nanos_spec() - m.flow_start;
    let interarrival = timestamp - m.previous_timestamp;
    let from_initiator = dissection.source_socket_address_spec() == m.initiator
        && dissection.destination_socket_address_spec() == m.respondent;
    FlowModel {
        packet_count: m.packet_count + 1,
        total_size: m.total_size + size,
        minimum_size: if size < m.minimum_size {
            size
        } else {
            m.minimum_size
        },
        maximum_size: if size > m.maximum_size {
            size
        } else {
            m.maximum_size
        },
        minimum_interarrival_time: if interarrival < m.minimum_interarrival_time {
            interarrival
        } else {
            m.minimum_interarrival_time
        },
        maximum_interarrival_time: if interarrival > m.maximum_interarrival_time {
            interarrival
        } else {
            m.maximum_interarrival_time
        },
        previous_timestamp: timestamp,
        packets: m.packets.push(
            FlowPacket {
                from_initiator_to_respondent: from_initiator,
                timestamp: timestamp as u64,
                size: header.actual_length.0 as u64,
            },
        ),
        ..m
    }
}

/// What finalization derives once all records of a flow are in: the
/// average size is the total over the count, the duration is the last
/// relative timestamp, and the average interarrival time is the duration
/// over the count less one — defined as zero for a single-packet flow,
/// which has no interarrival at all.
pub open spec fn finalize_flow_spec(m: FlowModel) -> FlowModel {
    FlowModel {
        average_size: m.total_size / m.packet_count,
        flow_duration: m.previous_timestamp,
        average_interarrival_time: if m.packet_count > 1 {
            m.previous_timestamp / (m.packet_count - 1)
        } else {
            0
        },
        ..m
    }
}

impl Flow {
    /// Starts a flow from its first record.
    pub fn new(dissection: &PacketDissection, header: &PacketHeader) -> (r: Self)
        ensures
            r@ == new_flow_spec(*header, *dissection),
    {
        let (initiator, respondent): (SocketAddress, SocketAddress) =
            dissection.socket_addresses();
        let protocol: TransportLayerType = dissection.network_layer.get_transport_layer_type();

        let size: u64 = header.actual_length.0 as u64;
        let timestamp: u64 = header.timestamp.nanos();

        let flow_packet = FlowPacket {
            from_initiator_to_respondent: true,
            timestamp: 0u64,
            size,
        };

        let mut packets: Vec<FlowPacket> = Vec::new();
        packets.push(flow_packet);

        let r = Flow {
            initiator,
            respondent,
            protocol,
            packet_count: 1,
            total_size: size,
            average_size: 0,
            minimum_size: size,
            maximum_size: size,
            flow_duration: 0,
            average_interarrival_time: 0,
            minimum_interarrival_time: u64::MAX,
            maximum_interarrival_time: 0,
            packets,
            flow_start: timestamp,
            previous_timestamp: 0,
        };
        assert(r@.packets =~= new_flow_spec(*header, *dissection).packets);
        assert(r@ =~= new_flow_spec(*header, *dissection));
        r
    }

    /// Folds one more record into the flow. The record must not be earlier
    /// than the flow's start or its previous record — the caller feeds
    /// records in timestamp order — and the running totals must have room
    /// for it.
    pub fn insert_packet(&mut self, dissection: &PacketDissection, header: &PacketHeader)
        requires
            header.timestamp.nanos_spec() >= old(self)@.flow_start,
            header.timestamp.nanos_spec() - old(self)@.flow_start >= old(self)@.previous_timestamp,
            old(self)@.total_size + header.actual_length.0 <= u64::MAX,
            old(self)@.packet_count < u64::MAX,
        ensures
            final(self)@ == insert_packet_spec(old(self)@, *header, *dissection),
    {
        let (initiator, respondent): (SocketAddress, SocketAddress) =
            dissection.socket_addresses();
        let timestamp: u64 = header.timestamp.nanos() - self.flow_start;

        self.packet_count = self.packet_count + 1;

        let size: u64 = header.actual_length.0 as u64;
        self.total_size = self.total_size + size;
        if size > self.maximum_size {
            self.maximum_size = size;
        }
        if size < self.minimum_size {
            self.minimum_size = size;
        }

        let interarrival_time: u64 = timestamp - self.previous_timestamp;
        if interarrival_time > self.maximum_interarrival_time {
            self.maximum_interarrival_time = interarrival_time;
        }
        if interarrival_time < self.minimum_interarrival_time {
            self.minimum_interarrival_time = interarrival_time;
        }
        self.previous_timestamp = timestamp;

        let from_initiator_to_respondent: bool = initiator == self.initiator && respondent
            == self.respondent;
        let packet = FlowPacket { from_initiator_to_respondent, timestamp, size };
        self.packets.push(packet);

        assert(self@ =~= insert_packet_spec(old(self)@, *header, *dissection));
    }

    /// Derives the averages and the duration once every record is in.
    pub fn finalize(&mut self)
        requires
            old(self)@.packet_count >= 1,
        ensures
            final(self)@ == finalize_flow_spec(old(self)@),
    {
        self.average_size = self.total_size / self.packet_count;
        self.flow_duration = self.previous_timestamp;
        self.average_interarrival_time = if self.packet_count > 1 {
            self.previous_timestamp / (self.packet_count - 1)
        } else {
            0
        };
        assert(self@ =~= finalize_flow_spec(old(self)@));
    }

    pub fn initiator(&self) -> (r: SocketAddress)
        ensures
            r == self@.initiator,
    {
        self.initiator
    }

    pub fn respondent(&self) -> (r: SocketAddress)
        ensures
            r == self@.respondent,
    {
        self.respondent
    }

    pub fn protocol(&self) -> (r: TransportLayerType)
        ensures
            r == self@.protocol,
    {
        self.protocol
    }

    pub fn packet_count(&self) -> (r: u64)
        ensures
            r == self@.packet_count,
    {
        self.packet_count
    }

    pub fn total_size(&self) -> (r: u64)
        ensures
            r == self@.total_size,
    {
        self.total_size
    }

    pub fn average_size(&self) -> (r: u64)
        ensures
            r == self@.average_size,
    {
        self.average_size
    }

    pub fn minimum_size(&self) -> (r: u64)
        ensures
            r == self@.minimum_size,
    {
        self.minimum_size
    }

    pub fn maximum_size(&self) -> (r: u64)
        ensures
            r == self@.maximum_size,
    {
        self.maximum_size
    }

    pub fn flow_duration(&self) -> (r: u64)
        ensures
            r == self@.flow_duration,
    {
        self.flow_duration
    }

    pub fn average_interarrival_time(&self) -> (r: u64)
        ensures
            r == self@.average_interarrival_time,
    {
        self.average_interarrival_time
    }

    pub fn minimum_interarrival_time(&self) -> (r: u64)
        ensures
            r == self@.minimum_interarrival_time,
    {
        self.minimum_interarrival_time
    }

    pub fn maximum_interarrival_time(&self) -> (r: u64)
        ensures
            r == self@.maximum_interarrival_time,
    {
        self.maximum_interarrival_time
    }

    pub fn packets(&self) -> (r: &Vec<FlowPacket>)
        ensures
            r@ == self@.packets,
    {
        &self.packets
    }
}

/// A record's time as the linear count its flow statistics are computed
/// over.
pub open spec fn record_time(record: (PacketHeader, PacketDissection)) -> int {
    record.0.timestamp.nanos_spec() as int
}

/// The five-tuple a record is grouped under.
pub open spec fn record_key(record: (PacketHeader, PacketDissection)) -> FiveTuple {
    FiveTuple::from_dissection_spec(record.1)
}

/// Whether a sequence of records is ordered by time, earliest first.
pub open spec fn sorted_by_time(s: Seq<(PacketHeader, PacketDissection)>) -> bool {
    forall|i: int, j: int|
        #![trigger record_time(s[i]), record_time(s[j])]
        0 <= i <= j < s.len() ==> record_time(s[i]) <= record_time(s[j])
}

/// Where one record lands in an already time-ordered sequence: after every
/// record that is not later than it, so records with equal times keep
/// their arrival order.
pub open spec fn insert_by_time_spec(
    record: (PacketHeader, PacketDissection),
    s: Seq<(PacketHeader, PacketDissection)>,
) -> Seq<(PacketHeader, PacketDissection)>
    decreases s.len(),
{
    if s.len() == 0 {
        seq![record]
    } else if record_time(s[0]) <= record_time(record) {
        seq![s[0]] + insert_by_time_spec(record, s.drop_first())
    } else {
        seq![record] + s
    }
}

/// The stable sort of a record sequence by time: each record, in arrival
/// order, inserted after its equals.
pub open spec fn sort_by_time_spec(s: Seq<(PacketHeader, PacketDissection)>) -> Seq<
    (PacketHeader, PacketDissection),
>
    decreases s.len(),
{
    if s.len() == 0 {
        Seq::empty()
    } else {
        insert_by_time_spec(s.last(), sort_by_time_spec(s.drop_last()))
    }
}

proof fn lemma_insert_by_time_sorted(
    record: (PacketHeader, PacketDissection),
    s: Seq<(PacketHeader, PacketDissection)>,
)
    requires
        sorted_by_time(s),
    ensures
        sorted_by_time(insert_by_time_spec(record, s)),
        insert_by_time_spec(record, s).len() == s.len() + 1,
        forall|i: int|
            0 <= i < insert_by_time_spec(record, s).len() ==> #[trigger] record_time(
                insert_by_time_spec(record, s)[i],
            ) >= record_time(s[0]) || record_time(insert_by_time_spec(record, s)[i])
                >= record_time(record),
    decreases s.len(),
{
    let out = insert_by_time_spec(record, s);
    if s.len() == 0 {
    } else if record_time(s[0]) <= record_time(record) {
        assert(sorted_by_time(s.drop_first()));
        lemma_insert_by_time_sorted(record, s.drop_first());
        let tail = insert_by_time_spec(record, s.drop_first());
        assert forall|i: int, j: int| 0 <= i <= j < out.len() implies record_time(out[i])
            <= record_time(out[j]) by {
            if i == 0 {
                if j > 0 {
                    assert(out[j] == tail[j - 1]);
                    assert(record_time(tail[j - 1]) >= record_time(s.drop_first()[0])
                        || record_time(tail[j - 1]) >= record_time(record));
                }
            } else {
                assert(out[i] == tail[i - 1] && out[j] == tail[j - 1]);
            }
        }
    } else {
    }
}

proof fn lemma_sort_by_time_sorted(s: Seq<(PacketHeader, PacketDissection)>)
    ensures
        sorted_by_time(sort_by_time_spec(s)),
        sort_by_time_spec(s).len() == s.len(),
    decreases s.len(),
{
    if s.len() > 0 {
        lemma_sort_by_time_sorted(s.drop_last());
        lemma_insert_by_time_sorted(s.last(), sort_by_time_spec(s.drop_last()));
    }
}

proof fn lemma_insert_by_time_position(
    record: (PacketHeader, PacketDissection),
    s: Seq<(PacketHeader, PacketDissection)>,
    position: int,
)
    requires
        0 <= position <= s.len(),
        forall|q: int| 0 <= q < position ==> record_time(#[trigger] s[q]) <= record_time(record),
        position < s.len() ==> record_time(s[position]) > record_time(record),
    ensures
        insert_by_time_spec(record, s) == s.insert(position, record),
    decreases s.len(),
{
    if s.len() == 0 {
        assert(insert_by_time_spec(record, s) =~= s.insert(0, record));
    } else if position == 0 {
        assert(insert_by_time_spec(record, s) =~= s.insert(0, record));
    } else {
        lemma_insert_by_time_position(record, s.drop_first(), position - 1);
        assert(insert_by_time_spec(record, s) =~= s.insert(position, record));
    }
}

/// The running totals a time-ordered fold reaches: the flow starts at the
/// first record's time, counts every record, keeps its relative clock at
/// the last record seen, and its total size is bounded by the count times
/// the largest single size.
proof fn lemma_fold_flow_props(group: Seq<(PacketHeader, PacketDissection)>)
    requires
        group.len() >= 1,
        sorted_by_time(group),
    ensures
        fold_flow_spec(group).flow_start == record_time(group[0]),
        fold_flow_spec(group).packet_count == group.len(),
        fold_flow_spec(group).previous_timestamp == if group.len() == 1 {
            0
        } else {
            record_time(group.last()) - record_time(group[0])
        },
        fold_flow_spec(group).previous_timestamp >= 0,
        0 <= fold_flow_spec(group).total_size,
        fold_flow_spec(group).total_size <= group.len() * 0xFFFF_FFFF,
    decreases group.len(),
{
    if group.len() == 1 {
    } else {
        let prefix = group.drop_last();
        assert(sorted_by_time(prefix));
        lemma_fold_flow_props(prefix);
        assert(record_time(group[0]) <= record_time(group.last()));
        if prefix.len() > 1 {
            assert(record_time(prefix.last()) <= record_time(group.last()));
        }
        assert(fold_flow_spec(prefix).total_size + group.last().0.actual_length.0 <= prefix.len()
            * 0xFFFF_FFFF + 0xFFFF_FFFF);
        assert(prefix.len() * 0xFFFF_FFFF + 0xFFFF_FFFF == group.len() * 0xFFFF_FFFF);
    }
}

/// The flow a time-ordered group of records folds to: the first record
/// starts it and every later one is inserted in order.
pub open spec fn fold_flow_spec(group: Seq<(PacketHeader, PacketDissection)>) -> FlowModel
    recommends
        group.len() >= 1,
    decreases group.len(),
{
    if group.len() <= 1 {
        new_flow_spec(group[0].0, group[0].1)
    } else {
        insert_packet_spec(fold_flow_spec(group.drop_last()), group.last().0, group.last().1)
    }
}

/// The distinct five-tuples of a record sequence, in order of first
/// appearance.
pub open spec fn flow_keys_spec(records: Seq<(PacketHeader, PacketDissection)>) -> Seq<FiveTuple>
    decreases records.len(),
{
    if records.len() == 0 {
        Seq::empty()
    } else {
        let prefix = flow_keys_spec(records.drop_last());
        if prefix.contains(record_key(records.last())) {
            prefix
        } else {
            prefix.push(record_key(records.last()))
        }
    }
}

/// The records of one five-tuple, in arrival order.
pub open spec fn records_with_key_spec(
    records: Seq<(PacketHeader, PacketDissection)>,
    key: FiveTuple,
) -> Seq<(PacketHeader, PacketDissection)>
    decreases records.len(),
{
    if records.len() == 0 {
        Seq::empty()
    } else {
        let prefix = records_with_key_spec(records.drop_last(), key);
        if record_key(records.last()) == key {
            prefix.push(records.last())
        } else {
            prefix
        }
    }
}

proof fn lemma_flow_keys_complete(records: Seq<(PacketHeader, PacketDissection)>, i: int)
    requires
        0 <= i < records.len(),
    ensures
        flow_keys_spec(records).contains(record_key(records[i])),
    decreases records.len(),
{
    if i == records.len() - 1 {
        let prefix = flow_keys_spec(records.drop_last());
        if !prefix.contains(record_key(records.last())) {
            assert(flow_keys_spec(records).last() == record_key(records.last()));
        }
    } else {
        lemma_flow_keys_complete(records.drop_last(), i);
        assert(records.drop_last()[i] == records[i]);
        let prefix = flow_keys_spec(records.drop_last());
        if !prefix.contains(record_key(records.last())) {
            let k = record_key(records[i]);
            let idx = choose|idx: int| 0 <= idx < prefix.len() && prefix[idx] == k;
            assert(flow_keys_spec(records)[idx] == k);
        }
    }
}

/// Stable-sorts a group of records by timestamp, earliest first.
fn sort_records_by_time(records: &Vec<(PacketHeader, PacketDissection)>) -> (r: Vec<
    (PacketHeader, PacketDissection),
>)
    ensures
        r@ == sort_by_time_spec(records@),
{
    let mut out: Vec<(PacketHeader, PacketDissection)> = Vec::new();
    let mut i: usize = 0;
    while i < records.len()
        invariant
            i <= records@.len(),
            out@ == sort_by_time_spec(records@.take(i as int)),
        decreases records@.len() - i,
    {
        let record: (PacketHeader, PacketDissection) = records[i];
        let time: u64 = record.0.timestamp.nanos();

        let ghost sorted_prefix = out@;
        let mut position: usize = 0;
        while position < out.len() && out[position].0.timestamp.nanos() <= time
            invariant
                out@ == sorted_prefix,
                position <= out@.len(),
                time == record.0.timestamp.nanos_spec(),
                forall|q: int|
                    0 <= q < position ==> record_time(#[trigger] out@[q]) <= record_time(record),
            decreases out@.len() - position,
        {
            position = position + 1;
        }

        out.insert(position, record);
        proof {
            lemma_insert_by_time_position(record, sorted_prefix, position as int);
            assert(records@.take(i + 1).drop_last() =~= records@.take(i as int));
            assert(records@.take(i + 1).last() == record);
        }
        i = i + 1;
    }
    assert(records@.take(records@.len() as int) =~= records@);
    out
}

/// What dissecting a batch of raw records yields: the typed records in
/// order, or the first dissection error.
pub open spec fn dissect_records_spec(
    records: Seq<(PacketHeader, Packet)>,
    e: Endianness,
    link_layer_type: LinkLayerType,
) -> Result<Seq<(PacketHeader, PacketDissection)>, Error>
    decreases records.len(),
{
    if records.len() == 0 {
        Ok(Seq::empty())
    } else {
        match dissect_records_spec(records.drop_last(), e, link_layer_type) {
            Err(err) => Err(err),
            Ok(prefix) => match PacketDissection::dissect_spec(
                records.last().1@,
                e,
                link_layer_type,
            ) {
                Err(err) => Err(err),
                Ok(dissection) => Ok(prefix.push((records.last().0, dissection))),
            },
        }
    }
}

proof fn lemma_dissect_records_first_error(
    records: Seq<(PacketHeader, Packet)>,
    e: Endianness,
    link_layer_type: LinkLayerType,
    i: int,
    err: Error,
)
    requires
        0 <= i < records.len(),
        dissect_records_spec(records.take(i), e, link_layer_type) is Ok,
        PacketDissection::dissect_spec(records[i].1@, e, link_layer_type) == Err::<
            PacketDissection,
            Error,
        >(err),
    ensures
        dissect_records_spec(records, e, link_layer_type) == Err::<
            Seq<(PacketHeader, PacketDissection)>,
            Error,
        >(err),
    decreases records.len(),
{
    if i == records.len() - 1 {
        assert(records.take(i) =~= records.drop_last());
    } else {
        assert(records.drop_last().take(i) =~= records.take(i));
        assert(records.drop_last()[i] == records[i]);
        lemma_dissect_records_first_error(records.drop_last(), e, link_layer_type, i, err);
    }
}

/// The finalized flow of every five-tuple in a dissected batch, keyed and
/// ordered by the key's first appearance: each key's records, sorted by
/// time, folded, and finalized.
pub open spec fn flows_model_spec(records: Seq<(PacketHeader, PacketDissection)>) -> Seq<
    (FiveTuple, FlowModel),
> {
    Seq::new(
        flow_keys_spec(records).len(),
        |i: int|
            (
                flow_keys_spec(records)[i],
                finalize_flow_spec(
                    fold_flow_spec(
                        sort_by_time_spec(records_with_key_spec(records, flow_keys_spec(records)[i])),
                    ),
                ),
            ),
    )
}

/// The queryable result of aggregation: one finalized flow per five-tuple,
/// in order of each key's first appearance.
pub struct Flows {
    inner: Vec<(FiveTuple, Flow)>,
}

impl View for Flows {
    type V = Seq<(FiveTuple, FlowModel)>;

    closed spec fn view(&self) -> Seq<(FiveTuple, FlowModel)> {
        Seq::new(self.inner@.len(), |i: int| (self.inner@[i].0, self.inner@[i].1@))
    }
}

impl Flows {
    pub fn len(&self) -> (r: usize)
        ensures
            r == self@.len(),
    {
        self.inner.len()
    }

    pub fn key_at(&self, index: usize) -> (r: FiveTuple)
        requires
            index < self@.len(),
        ensures
            r == self@[index as int].0,
    {
        let entry: &(FiveTuple, Flow) = &self.inner[index];
        entry.0
    }

    pub fn flow_at(&self, index: usize) -> (r: &Flow)
        requires
            index < self@.len(),
        ensures
            r@ == self@[index as int].1,
    {
        let entry: &(FiveTuple, Flow) = &self.inner[index];
        &entry.1
    }
}

/// Dissects a batch of raw records, groups them by five-tuple, orders each
/// group by timestamp, and folds it into finalized per-flow statistics.
/// The flows come out keyed in order of each key's first appearance; the
/// first record whose payload fails to dissect aborts the whole run with
/// that record's error.
pub fn extract_flows(
    capture_header: &CaptureHeader,
    records: &Vec<(PacketHeader, Packet)>,
) -> (r: Result<Flows, Error>)
    requires
        records@.len() < 0x1_0000_0000,
    ensures
        match dissect_records_spec(
            records@,
            capture_header.endianness,
            capture_header.link_layer_type,
        ) {
            Err(err) => r == Err::<Flows, Error>(err),
            Ok(recs) => r matches Ok(flows) && flows@ == flows_model_spec(recs),
        },
{
    let endianness: Endianness = capture_header.endianness;
    let link_layer_type: LinkLayerType = capture_header.link_layer_type;

    let mut dissected: Vec<(PacketHeader, PacketDissection)> = Vec::new();
    let mut i: usize = 0;
    while i < records.len()
        invariant
            i <= records@.len(),
            endianness == capture_header.endianness,
            link_layer_type == capture_header.link_layer_type,
            dissect_records_spec(records@.take(i as int), endianness, link_layer_type) == Ok::<
                Seq<(PacketHeader, PacketDissection)>,
                Error,
            >(dissected@),
            dissected@.len() == i,
        decreases records@.len() - i,
    {
        let pair: &(PacketHeader, Packet) = &records[i];
        match PacketDissection::from_packet(&pair.1, endianness, link_layer_type) {
            Ok(dissection) => {
                dissected.push((pair.0, dissection));
            },
            Err(err) => {
                proof {
                    lemma_dissect_records_first_error(
                        records@,
                        endianness,
                        link_layer_type,
                        i as int,
                        err,
                    );
                }
                return Err(err);
            },
        }
        i = i + 1;
        proof {
            assert(records@.take(i as int).drop_last() =~= records@.take(i as int - 1));
        }
    }
    proof {
        assert(records@.take(records@.len() as int) =~= records@);
    }
    let ghost all_records = dissected@;

    let mut groups: Vec<(FiveTuple, Vec<(PacketHeader, PacketDissection)>)> = Vec::new();
    let mut i: usize = 0;
    while i < dissected.len()
        invariant
            i <= dissected@.len(),
            dissected@.len() < 0x1_0000_0000,
            all_records == dissected@,
            groups@.len() == flow_keys_spec(dissected@.take(i as int)).len(),
            forall|j: int|
                0 <= j < groups@.len() ==> (#[trigger] groups@[j]).0 == flow_keys_spec(
                    dissected@.take(i as int),
                )[j],
            forall|j: int|
                0 <= j < groups@.len() ==> (#[trigger] groups@[j]).1@ == records_with_key_spec(
                    dissected@.take(i as int),
                    groups@[j].0,
                ),
            forall|j: int| 0 <= j < groups@.len() ==> 1 <= (#[trigger] groups@[j]).1@.len() <= i,
            forall|j1: int, j2: int|
                0 <= j1 < j2 < groups@.len() ==> (#[trigger] groups@[j1]).0 != (
                #[trigger] groups@[j2]).0,
        decreases dissected@.len() - i,
    {
        let record: (PacketHeader, PacketDissection) = dissected[i];
        let key: FiveTuple = FiveTuple::from_packet_dissection(&record.1);
        assert(key == record_key(record));

        let ghost saved_groups = groups@;
        let ghost processed = dissected@.take(i as int);
        let mut found_index: usize = groups.len();
        let mut j: usize = 0;
        while j < groups.len()
            invariant
                groups@ == saved_groups,
                j <= groups@.len(),
                found_index <= groups@.len(),
                found_index == groups@.len() ==> forall|q: int|
                    0 <= q < j ==> (#[trigger] groups@[q]).0 != key,
                found_index < groups@.len() ==> groups@[found_index as int].0 == key,
            decreases groups@.len() - j,
        {
            let entry: &(FiveTuple, Vec<(PacketHeader, PacketDissection)>) = &groups[j];
            if entry.0 == key {
                found_index = j;
            }
            j = j + 1;
        }

        proof {
            assert(dissected@.take(i as int + 1).drop_last() =~= processed);
            assert(dissected@.take(i as int + 1).last() == record);
        }

        if found_index < groups.len() {
            let mut entry = groups.remove(found_index);
            entry.1.push(record);
            groups.insert(found_index, entry);
            proof {
                let idx = found_index as int;
                assert(groups@ =~= saved_groups.update(
                    idx,
                    (
                        saved_groups[idx].0,
                        groups@[idx].1,
                    ),
                ));
                assert(groups@[idx].1@ == saved_groups[idx].1@.push(record));
                assert(flow_keys_spec(processed).contains(key)) by {
                    assert(flow_keys_spec(processed)[idx] == key);
                }
                assert(flow_keys_spec(dissected@.take(i as int + 1)) == flow_keys_spec(processed));
                assert forall|j2: int| 0 <= j2 < groups@.len() implies (#[trigger] groups@[j2]).1@
                    == records_with_key_spec(dissected@.take(i as int + 1), groups@[j2].0) by {
                    if j2 == idx {
                        assert(record_key(record) == groups@[j2].0);
                    } else {
                        assert(groups@[j2] == saved_groups[j2]);
                        assert(groups@[j2].0 != key);
                    }
                }
            }
        } else {
            let mut fresh: Vec<(PacketHeader, PacketDissection)> = Vec::new();
            fresh.push(record);
            groups.push((key, fresh));
            proof {
                assert(!flow_keys_spec(processed).contains(key)) by {
                    if flow_keys_spec(processed).contains(key) {
                        let idx = choose|idx: int|
                            0 <= idx < flow_keys_spec(processed).len() && flow_keys_spec(
                                processed,
                            )[idx] == key;
                        assert(saved_groups[idx].0 == key);
                    }
                }
                lemma_records_with_key_absent(processed, key);
                assert(flow_keys_spec(dissected@.take(i as int + 1)) == flow_keys_spec(
                    processed,
                ).push(key));
                assert(groups@[groups@.len() - 1].1@ =~= records_with_key_spec(
                    dissected@.take(i as int + 1),
                    key,
                ));
                assert forall|j2: int| 0 <= j2 < groups@.len() - 1 implies (
                #[trigger] groups@[j2]).1@ == records_with_key_spec(
                    dissected@.take(i as int + 1),
                    groups@[j2].0,
                ) by {
                    assert(groups@[j2] == saved_groups[j2]);
                    assert(groups@[j2].0 != key);
                }
            }
        }
        i = i + 1;
    }
    proof {
        assert(dissected@.take(dissected@.len() as int) =~= all_records);
    }

    let mut flows_vec: Vec<(FiveTuple, Flow)> = Vec::new();
    let mut g: usize = 0;
    while g < groups.len()
        invariant
            g <= groups@.len(),
            all_records.len() < 0x1_0000_0000,
            groups@.len() == flow_keys_spec(all_records).len(),
            forall|j: int|
                0 <= j < groups@.len() ==> (#[trigger] groups@[j]).0 == flow_keys_spec(
                    all_records,
                )[j],
            forall|j: int|
                0 <= j < groups@.len() ==> (#[trigger] groups@[j]).1@ == records_with_key_spec(
                    all_records,
                    groups@[j].0,
                ),
            forall|j: int|
                0 <= j < groups@.len() ==> 1 <= (#[trigger] groups@[j]).1@.len()
                    <= all_records.len(),
            flows_vec@.len() == g,
            forall|j: int|
                0 <= j < g ==> (#[trigger] flows_vec@[j]).0 == groups@[j].0,
            forall|j: int|
                0 <= j < g ==> (#[trigger] flows_vec@[j]).1@ == finalize_flow_spec(
                    fold_flow_spec(
                        sort_by_time_spec(records_with_key_spec(all_records, groups@[j].0)),
                    ),
                ),
        decreases groups@.len() - g,
    {
        let entry: &(FiveTuple, Vec<(PacketHeader, PacketDissection)>) = &groups[g];
        let sorted: Vec<(PacketHeader, PacketDissection)> = sort_records_by_time(&entry.1);
        proof {
            lemma_sort_by_time_sorted(entry.1@);
        }

        let first: (PacketHeader, PacketDissection) = sorted[0];
        proof {
            assert(sorted@.take(1)[0] == first);
        }
        let mut flow = Flow::new(&first.1, &first.0);
        assert(flow@ == fold_flow_spec(sorted@.take(1)));

        let mut k: usize = 1;
        while k < sorted.len()
            invariant
                1 <= k <= sorted@.len(),
                sorted@.len() < 0x1_0000_0000,
                sorted_by_time(sorted@),
                flow@ == fold_flow_spec(sorted@.take(k as int)),
            decreases sorted@.len() - k,
        {
            let record: (PacketHeader, PacketDissection) = sorted[k];
            proof {
                let prefix = sorted@.take(k as int);
                assert(sorted_by_time(prefix));
                lemma_fold_flow_props(prefix);
                assert(record_time(prefix[0]) <= record_time(record));
                if k > 1 {
                    assert(record_time(prefix.last()) <= record_time(record));
                }
                assert(flow@.total_size + record.0.actual_length.0 <= k * 0xFFFF_FFFF
                    + 0xFFFF_FFFF);
                assert(k * 0xFFFF_FFFF + 0xFFFF_FFFF == (k + 1) * 0xFFFF_FFFF);
                assert((k + 1) * 0xFFFF_FFFF <= 0x1_0000_0000 * 0xFFFF_FFFF);
            }
            flow.insert_packet(&record.1, &record.0);
            k = k + 1;
            proof {
                assert(sorted@.take(k as int).drop_last() =~= sorted@.take(k as int - 1));
                assert(sorted@.take(k as int).last() == record);
            }
        }
        proof {
            assert(sorted@.take(sorted@.len() as int) =~= sorted@);
            lemma_fold_flow_props(sorted@);
        }
        flow.finalize();
        flows_vec.push((entry.0, flow));
        g = g + 1;
    }

    let flows = Flows { inner: flows_vec };
    assert(flows@ =~= flows_model_spec(all_records));
    Ok(flows)
}

proof fn lemma_records_with_key_absent(
    records: Seq<(PacketHeader, PacketDissection)>,
    key: FiveTuple,
)
    requires
        !flow_keys_spec(records).contains(key),
    ensures
        records_with_key_spec(records, key) == Seq::<(PacketHeader, PacketDissection)>::empty(),
    decreases records.len(),
{
    if records.len() > 0 {
        lemma_flow_keys_complete(records, records.len() - 1);
        assert(record_key(records.last()) != key);
        let prefix = flow_keys_spec(records.drop_last());
        assert forall|k: FiveTuple| prefix.contains(k) implies #[trigger] flow_keys_spec(
            records,
        ).contains(k) by {
            if !prefix.contains(record_key(records.last())) {
                assert(flow_keys_spec(records) == prefix.push(record_key(records.last())));
                let idx = choose|idx: int| 0 <= idx < prefix.len() && prefix[idx] == k;
                assert(flow_keys_spec(records)[idx] == k);
            }
        }
        lemma_records_with_key_absent(records.drop_last(), key);
    }
}

} // verus!

