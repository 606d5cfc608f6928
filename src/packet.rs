//! Processing of a packet from AIS-catcher: each message in turn is identified,
//! accepted or skipped, checked against the ignored stations, decoded, and turned
//! into the query of a submission.

use vstd::prelude::*;
use crate::config::ArgsState;
use crate::identifier::{field_u64, identifier_of, AisMessageIdentifier};
use crate::json::AisMessage;
use crate::publish::{build_query_args, query_args};
use crate::station::{
    rxtime_of, station_args, station_decoded, station_error, AisStationData, DecodeError,
};
use crate::text::{nat_digits, u64_to_text};
use crate::weather::{weather_args, weather_decoded, weather_error, AisType8Dac200Fid31};

verus! {

/// Data about the AIS receiver software
#[derive(Debug, Clone)]
pub struct AisCatcherReceiver {
    /// The description from AIS-catcher
    pub description: String,
    /// Version of AIS-catcher
    pub version: u32,
    /// Engine name from AIS-catcher
    pub engine: String,
    /// Receiver setting from AIS-catcher
    pub setting: String,
}

/// Data about the AIS receiver device
#[derive(Debug, Clone)]
pub struct AisCatcherDevice {
    pub product: String,
    pub vendor: String,
    pub serial: String,
    pub setting: String,
}

/// A packet from AIS-catcher: details of the receiver and the messages it decoded.
#[derive(Debug, Clone)]
pub struct AisCatcherMessage {
    pub protocol: String,
    pub encodetime: String,
    /// This is the name that AIS-catcher identifies itself with, not the station ID
    /// of the broadcast source (for weather, only MMSI is present)
    pub stationid: String,
    /// Details about the AIS-catcher receiver itself
    pub receiver: AisCatcherReceiver,
    /// Details about the hardware used by AIS-catcher
    pub device: AisCatcherDevice,
    pub msgs: Vec<AisMessage>,
}

/// What becomes of a message.
#[derive(Debug, Clone)]
pub enum MessageOutcome {
    /// Its identifier is not accepted (or it has none).
    Skipped,
    /// It comes from a station that its identifier's entry ignores.
    Ignored,
    /// It is accepted but cannot be decoded.
    Failed(DecodeError),
    /// It is to be submitted with this query.
    Submit(Vec<(String, String)>),
}

/// The kinds of outcome.
#[derive(Debug, Clone, Copy, PartialEq, Eq, Structural)]
pub enum OutcomeKind {
    Skipped,
    Ignored,
    Failed,
    Submitted,
}

/// The kind of outcome of a message.
pub open spec fn kind_of(m: AisMessage, args: ArgsState) -> OutcomeKind {
    match identifier_of(m) {
        None => OutcomeKind::Skipped,
        Some(id) => if !args.message_config_lookup@.contains_key(id) {
            OutcomeKind::Skipped
        } else if station_error(m, rxtime_of(m)) is Some {
            OutcomeKind::Failed
        } else if field_u64(m, "mmsi"@) matches Some(mmsi) && args.message_config_lookup@[id].contains(mmsi) {
            OutcomeKind::Ignored
        } else if weather_error(m) is Some {
            OutcomeKind::Failed
        } else {
            OutcomeKind::Submitted
        },
    }
}

/// Why an accepted message failed: its station part first, then its weather data.
pub open spec fn failure_of(m: AisMessage) -> Option<DecodeError> {
    match station_error(m, rxtime_of(m)) {
        Some(e) => Some(e),
        None => weather_error(m),
    }
}

/// The query submitted for a message is that of its decoded station and weather data.
pub open spec fn submission_of(q: Seq<(Seq<char>, Seq<char>)>, m: AisMessage, args: ArgsState) -> bool {
    exists|s: AisStationData, w: AisType8Dac200Fid31|
        station_decoded(s, m, rxtime_of(m)) && weather_decoded(w, m) && q == query_args(s, w, args)
}

impl MessageOutcome {
    pub open spec fn kind(&self) -> OutcomeKind {
        match self {
            MessageOutcome::Skipped => OutcomeKind::Skipped,
            MessageOutcome::Ignored => OutcomeKind::Ignored,
            MessageOutcome::Failed(_) => OutcomeKind::Failed,
            MessageOutcome::Submit(_) => OutcomeKind::Submitted,
        }
    }
}

/// Whether `o` is what becomes of `m`.
pub open spec fn outcome_of(o: MessageOutcome, m: AisMessage, args: ArgsState) -> bool {
    &&& o.kind() == kind_of(m, args)
    &&& o matches MessageOutcome::Failed(e) ==> failure_of(m) == Some(e)
    &&& o matches MessageOutcome::Submit(q) ==> submission_of(q.deep_view(), m, args)
}

/// Decides what becomes of one message.
pub fn process_message(msg: &AisMessage, args: &ArgsState) -> (r: MessageOutcome)
    ensures
        outcome_of(r, *msg, *args),
{
    let ami = match AisMessageIdentifier::from_message(msg) {
        Some(id) => id,
        None => {
            return MessageOutcome::Skipped;
        },
    };
    let config = match args.message_config_lookup.get(&ami) {
        Some(c) => c,
        None => {
            return MessageOutcome::Skipped;
        },
    };
    let asd = match AisStationData::from_message(msg) {
        Ok(s) => s,
        Err(e) => {
            return MessageOutcome::Failed(e);
        },
    };
    if config.is_excluded(asd.mmsi) {
        return MessageOutcome::Ignored;
    }
    let awd = match AisType8Dac200Fid31::from_message(msg) {
        Ok(w) => w,
        Err(e) => {
            return MessageOutcome::Failed(e);
        },
    };
    let q = build_query_args(&asd, &awd, args);
    MessageOutcome::Submit(q)
}

/// How many of the messages have an outcome of kind `k`.
pub open spec fn count_kind(ms: Seq<AisMessage>, args: ArgsState, k: OutcomeKind) -> nat
    decreases ms.len(),
{
    if ms.len() == 0 {
        0
    } else {
        count_kind(ms.drop_last(), args, k) + if kind_of(ms.last(), args) == k {
            1nat
        } else {
            0nat
        }
    }
}

/// What became of the messages of a packet, in their order, with counts.
#[derive(Debug, Clone)]
pub struct PacketReport {
    pub total: usize,
    pub submitted: usize,
    pub skipped: usize,
    pub ignored: usize,
    pub failed: usize,
    pub outcomes: Vec<MessageOutcome>,
}

/// The text of the summary: `Received 5 messages, submitted 2, skipped 2, ignored 1`.
pub open spec fn summary_text(total: nat, submitted: nat, skipped: nat, ignored: nat) -> Seq<char> {
    "Received "@ + nat_digits(total) + " messages, submitted "@ + nat_digits(submitted)
        + ", skipped "@ + nat_digits(skipped) + ", ignored "@ + nat_digits(ignored)
}

impl PacketReport {
    /// The summary returned for the packet.
    pub fn summary(&self) -> (r: String)
        ensures
            r@ == summary_text(
                self.total as nat,
                self.submitted as nat,
                self.skipped as nat,
                self.ignored as nat,
            ),
    {
        let mut r = String::from_str("Received ");
        let t = u64_to_text(self.total as u64);
        r.append(t.as_str());
        r.append(" messages, submitted ");
        let s = u64_to_text(self.submitted as u64);
        r.append(s.as_str());
        r.append(", skipped ");
        let k = u64_to_text(self.skipped as u64);
        r.append(k.as_str());
        r.append(", ignored ");
        let i = u64_to_text(self.ignored as u64);
        r.append(i.as_str());
        r
    }
}

/// Processes every message of a packet in order.
pub fn process_packet(payload: &AisCatcherMessage, args: &ArgsState) -> (r: PacketReport)
    ensures
        r.outcomes@.len() == payload.msgs@.len(),
        forall|i: int|
            0 <= i < payload.msgs@.len() ==> outcome_of(
                #[trigger] r.outcomes@[i],
                payload.msgs@[i],
                *args,
            ),
        r.total == payload.msgs@.len(),
        r.submitted == count_kind(payload.msgs@, *args, OutcomeKind::Submitted),
        r.skipped == count_kind(payload.msgs@, *args, OutcomeKind::Skipped),
        r.ignored == count_kind(payload.msgs@, *args, OutcomeKind::Ignored),
        r.failed == count_kind(payload.msgs@, *args, OutcomeKind::Failed),
{
    let ghost ms = payload.msgs@;
    let mut outcomes: Vec<MessageOutcome> = Vec::new();
    let mut submitted: usize = 0;
    let mut skipped: usize = 0;
    let mut ignored: usize = 0;
    let mut failed: usize = 0;
    let mut i: usize = 0;
    while i < payload.msgs.len()
        invariant
            ms == payload.msgs@,
            i <= ms.len(),
            outcomes@.len() == i,
            forall|j: int| 0 <= j < i ==> outcome_of(#[trigger] outcomes@[j], ms[j], *args),
            submitted == count_kind(ms.take(i as int), *args, OutcomeKind::Submitted),
            skipped == count_kind(ms.take(i as int), *args, OutcomeKind::Skipped),
            ignored == count_kind(ms.take(i as int), *args, OutcomeKind::Ignored),
            failed == count_kind(ms.take(i as int), *args, OutcomeKind::Failed),
            submitted + skipped + ignored + failed == i,
        decreases ms.len() - i,
    {
        let o = process_message(&payload.msgs[i], args);
        assert(ms.take(i + 1).drop_last() =~= ms.take(i as int));
        assert(ms.take(i + 1).last() == ms[i as int]);
        match &o {
            MessageOutcome::Skipped => {
                skipped = skipped + 1;
            },
            MessageOutcome::Ignored => {
                ignored = ignored + 1;
            },
            MessageOutcome::Failed(_) => {
                failed = failed + 1;
            },
            MessageOutcome::Submit(_) => {
                submitted = submitted + 1;
            },
        }
        outcomes.push(o);
        i = i + 1;
    }
    assert(ms.take(i as int) =~= ms);
    PacketReport { total: i, submitted, skipped, ignored, failed, outcomes }
}

/// Every message of a packet is counted once: as submitted, skipped, ignored or failed.
pub proof fn lemma_counts_add_up(ms: Seq<AisMessage>, args: ArgsState)
    ensures
        count_kind(ms, args, OutcomeKind::Submitted) + count_kind(ms, args, OutcomeKind::Skipped)
            + count_kind(ms, args, OutcomeKind::Ignored) + count_kind(ms, args, OutcomeKind::Failed)
            == ms.len(),
    decreases ms.len(),
{
    if ms.len() > 0 {
        lemma_counts_add_up(ms.drop_last(), args);
    }
}

/// An accepted message from a station that its identifier's entry ignores is
/// ignored, never submitted, once its station part decodes.
pub proof fn lemma_ignored_station_not_submitted(m: AisMessage, args: ArgsState, mmsi: u64)
    requires
        identifier_of(m) matches Some(id) && args.message_config_lookup@.contains_key(id)
            && args.message_config_lookup@[id].contains(mmsi),
        station_error(m, rxtime_of(m)) is None,
        field_u64(m, "mmsi"@) == Some(mmsi),
    ensures
        kind_of(m, args) == OutcomeKind::Ignored,
{
}

/// A message is decoded only where an accepted identifier equals its own in all
/// three parts: its type, and its `dac` and `fid`, each absent exactly where the
/// message lacks a numeric one. Every other message is skipped.
pub proof fn lemma_accepted_identifier_is_exact(m: AisMessage, args: ArgsState)
    ensures
        kind_of(m, args) != OutcomeKind::Skipped <==> (identifier_of(m) matches Some(id)
            && args.message_config_lookup@.contains_key(id)),
        identifier_of(m) matches Some(id) ==> Some(id.msg_type) == field_u64(m, "type"@) && id.dac
            == field_u64(m, "dac"@) && id.fid == field_u64(m, "fid"@),
{
}

/// The query of a submission is determined by the message: any two decodings of it
/// give the same query.
pub proof fn lemma_submission_is_determined(
    m: AisMessage,
    args: ArgsState,
    s1: AisStationData,
    w1: AisType8Dac200Fid31,
    s2: AisStationData,
    w2: AisType8Dac200Fid31,
)
    requires
        station_decoded(s1, m, rxtime_of(m)),
        weather_decoded(w1, m),
        station_decoded(s2, m, rxtime_of(m)),
        weather_decoded(w2, m),
    ensures
        query_args(s1, w1, args) == query_args(s2, w2, args),
{
    assert(station_args(s1, args.mmsi_lookup@) == station_args(s2, args.mmsi_lookup@));
    assert(weather_args(w1) == weather_args(w2));
}

} // verus!
