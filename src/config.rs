//! Configuration: what the configuration file holds, its checks, and the lookup
//! tables built from it once at start.

use vstd::prelude::*;
use crate::identifier::AisMessageIdentifier;
use crate::table::{assoc_map, lemma_assoc_suffix, string_pairs, StringTable};

verus! {

/// The MMSI of the example station entry that a new configuration file holds.
pub const DEFAULT_MMSI: &'static str = "00000";

/// The ERDDAP URL that a new configuration file holds.
pub const DEFAULT_URL: &'static str = "https://erddap.example.com/erddap/tabledap/data_set";

/// The ERDDAP author key that a new configuration file holds.
pub const DEFAULT_KEY: &'static str = "username_password";

/// Application configuration from file
#[derive(Debug, Clone)]
pub struct AppConfig {
    /// URL of the ERDDAP service, including protocol and path, not including .insert
    pub erddap_url: String,
    /// Username_Password author key for the ERDDAP service
    pub erddap_key: String,
    /// Names of the fields to publish to ERDDAP; where empty, all are published.
    pub publish_fields: Vec<String>,
    /// A remapping of field names to support requirements of the remote system
    pub rename_fields: Vec<(String, String)>,
    /// The accepted message identifiers, each with the MMSIs to ignore
    pub message_config: Vec<AcceptedMessage>,
    /// Station names for MMSIs (Mobile Marine Service Identifiers)
    pub mmsi_lookup: Vec<MMSILookup>,
}

/// A table entry for a MMSI and the station name to use for that MMSI
#[derive(Debug, Clone)]
pub struct MMSILookup {
    /// The Marine Mobile Service Identifier from the AIS message
    pub mmsi: String,
    /// The name to give the MMSI.
    pub station_name: String,
}

/// A table entry for a message identifier to accept for decoding
#[derive(Debug, Clone)]
pub struct AcceptedMessage {
    /// The type number from the AIS specification, such as 8 for weather
    pub msg_type: u64,
    /// Designated Area Code, only valid for binary messages (type 8 for instance)
    pub dac: Option<u64>,
    /// Functional ID, only valid for binary messages (type 8 for instance)
    pub fid: Option<u64>,
    /// List of MMSIs to ignore, such as test ATONs.
    pub ignore_mmsi: Vec<u64>,
}

/// What is configured for one accepted message identifier.
#[derive(Debug, Clone)]
pub struct PerMessageConfig {
    /// List of MMSIs to ignore, such as test ATONs.
    pub ignore_mmsi: Vec<u64>,
}

impl PerMessageConfig {
    /// Whether messages from `mmsi` are ignored.
    pub fn is_excluded(&self, mmsi: u64) -> (r: bool)
        ensures
            r == self.ignore_mmsi@.contains(mmsi),
    {
        let mut i: usize = 0;
        while i < self.ignore_mmsi.len()
            invariant
                i <= self.ignore_mmsi@.len(),
                forall|j: int| 0 <= j < i ==> self.ignore_mmsi@[j] != mmsi,
            decreases self.ignore_mmsi@.len() - i,
        {
            if self.ignore_mmsi[i] == mmsi {
                return true;
            }
            i = i + 1;
        }
        false
    }
}

pub open spec fn strings_view(v: Seq<String>) -> Seq<Seq<char>> {
    v.map_values(|s: String| s@)
}

pub open spec fn mmsi_pairs(v: Seq<MMSILookup>) -> Seq<(Seq<char>, Seq<char>)> {
    v.map_values(|e: MMSILookup| (e.mmsi@, e.station_name@))
}

pub open spec fn identifier_of_rule(e: AcceptedMessage) -> AisMessageIdentifier {
    AisMessageIdentifier { msg_type: e.msg_type, dac: e.dac, fid: e.fid }
}

pub open spec fn rule_pairs(v: Seq<AcceptedMessage>) -> Seq<(AisMessageIdentifier, Seq<u64>)> {
    v.map_values(|e: AcceptedMessage| (identifier_of_rule(e), e.ignore_mmsi@))
}

/// The table of accepted message identifiers, each with its ignored MMSIs.
#[derive(Debug, Clone)]
pub struct MessageConfigTable {
    entries: Vec<(AisMessageIdentifier, PerMessageConfig)>,
}

pub open spec fn config_pairs(v: Seq<(AisMessageIdentifier, PerMessageConfig)>) -> Seq<
    (AisMessageIdentifier, Seq<u64>),
> {
    v.map_values(|p: (AisMessageIdentifier, PerMessageConfig)| (p.0, p.1.ignore_mmsi@))
}

impl View for MessageConfigTable {
    type V = Map<AisMessageIdentifier, Seq<u64>>;

    closed spec fn view(&self) -> Map<AisMessageIdentifier, Seq<u64>> {
        assoc_map(config_pairs(self.entries@))
    }
}

impl MessageConfigTable {
    /// An empty table.
    pub fn new() -> (r: Self)
        ensures
            r@ == Map::<AisMessageIdentifier, Seq<u64>>::empty(),
    {
        let r = MessageConfigTable { entries: Vec::new() };
        assert(config_pairs(r.entries@) =~= Seq::<(AisMessageIdentifier, Seq<u64>)>::empty());
        r
    }

    /// Accepts `id` with `config`, replacing what was configured for it.
    pub fn insert(&mut self, id: AisMessageIdentifier, config: PerMessageConfig)
        ensures
            final(self)@ == old(self)@.insert(id, config.ignore_mmsi@),
    {
        let ghost c = config.ignore_mmsi@;
        self.entries.push((id, config));
        assert(config_pairs(self.entries@).drop_last() =~= config_pairs(old(self).entries@));
    }

    /// What is configured for `id`, where it is accepted; the match is exact on all
    /// three parts, an absent part matching only an absent part.
    pub fn get(&self, id: &AisMessageIdentifier) -> (r: Option<&PerMessageConfig>)
        ensures
            match r {
                Some(c) => self@.contains_key(*id) && self@[*id] == c.ignore_mmsi@,
                None => !self@.contains_key(*id),
            },
    {
        let ghost s = config_pairs(self.entries@);
        let mut i: usize = self.entries.len();
        while i > 0
            invariant
                i <= self.entries@.len(),
                s == config_pairs(self.entries@),
                forall|j: int| i <= j < s.len() ==> (#[trigger] s[j]).0 != *id,
            decreases i,
        {
            if self.entries[i - 1].0 == *id {
                proof {
                    lemma_assoc_suffix(s, *id, i as int);
                }
                return Some(&self.entries[i - 1].1);
            }
            i = i - 1;
        }
        proof {
            lemma_assoc_suffix(s, *id, 0);
        }
        None
    }
}

/// Station names by MMSI, a later entry for an MMSI replacing an earlier one.
pub fn build_mmsi_to_station_id_map(app_config: &AppConfig) -> (r: StringTable)
    ensures
        r@ == assoc_map(mmsi_pairs(app_config.mmsi_lookup@)),
{
    let ghost p = mmsi_pairs(app_config.mmsi_lookup@);
    let mut r = StringTable::new();
    let mut i: usize = 0;
    while i < app_config.mmsi_lookup.len()
        invariant
            i <= app_config.mmsi_lookup@.len(),
            p == mmsi_pairs(app_config.mmsi_lookup@),
            r@ == assoc_map(p.take(i as int)),
        decreases app_config.mmsi_lookup@.len() - i,
    {
        let entry = &app_config.mmsi_lookup[i];
        r.insert(entry.mmsi.clone(), entry.station_name.clone());
        assert(p.take(i + 1).drop_last() =~= p.take(i as int));
        i = i + 1;
    }
    assert(p.take(i as int) =~= p);
    r
}

/// Field renames, a later entry for a name replacing an earlier one.
pub fn build_field_rename_map(app_config: &AppConfig) -> (r: StringTable)
    ensures
        r@ == assoc_map(string_pairs(app_config.rename_fields@)),
{
    let ghost p = string_pairs(app_config.rename_fields@);
    let mut r = StringTable::new();
    let mut i: usize = 0;
    while i < app_config.rename_fields.len()
        invariant
            i <= app_config.rename_fields@.len(),
            p == string_pairs(app_config.rename_fields@),
            r@ == assoc_map(p.take(i as int)),
        decreases app_config.rename_fields@.len() - i,
    {
        let entry = &app_config.rename_fields[i];
        r.insert(entry.0.clone(), entry.1.clone());
        assert(p.take(i + 1).drop_last() =~= p.take(i as int));
        i = i + 1;
    }
    assert(p.take(i as int) =~= p);
    r
}

/// Accepted identifiers with their ignored MMSIs, a later entry for an identifier
/// replacing an earlier one.
pub fn build_message_config_lookup(app_config: &AppConfig) -> (r: MessageConfigTable)
    ensures
        r@ == assoc_map(rule_pairs(app_config.message_config@)),
{
    let ghost p = rule_pairs(app_config.message_config@);
    let mut r = MessageConfigTable::new();
    let mut i: usize = 0;
    while i < app_config.message_config.len()
        invariant
            i <= app_config.message_config@.len(),
            p == rule_pairs(app_config.message_config@),
            r@ == assoc_map(p.take(i as int)),
        decreases app_config.message_config@.len() - i,
    {
        let entry = &app_config.message_config[i];
        let ami = AisMessageIdentifier { msg_type: entry.msg_type, dac: entry.dac, fid: entry.fid };
        let ignore = entry.ignore_mmsi.clone();
        assert(ignore@ =~= entry.ignore_mmsi@);
        r.insert(ami, PerMessageConfig { ignore_mmsi: ignore });
        assert(p.take(i + 1).drop_last() =~= p.take(i as int));
        i = i + 1;
    }
    assert(p.take(i as int) =~= p);
    r
}

/// Why a configuration cannot be run with.
#[derive(Debug, Clone, Copy, PartialEq, Eq, Structural)]
pub enum ConfigProblem {
    /// No station names are configured.
    EmptyMmsiLookup,
    /// The example station entry is still there.
    DefaultMmsiLookup,
    /// The ERDDAP URL is still the example one.
    DefaultErddapUrl,
    /// The ERDDAP key is still the example one.
    DefaultErddapKey,
}

/// The first problem of a configuration, in the order the checks are made.
pub open spec fn config_problem(c: AppConfig) -> Option<ConfigProblem> {
    if c.mmsi_lookup@.len() == 0 {
        Some(ConfigProblem::EmptyMmsiLookup)
    } else if exists|i: int|
        0 <= i < c.mmsi_lookup@.len() && (#[trigger] c.mmsi_lookup@[i]).mmsi@ == DEFAULT_MMSI@ {
        Some(ConfigProblem::DefaultMmsiLookup)
    } else if c.erddap_url@ == DEFAULT_URL@ {
        Some(ConfigProblem::DefaultErddapUrl)
    } else if c.erddap_key@ == DEFAULT_KEY@ {
        Some(ConfigProblem::DefaultErddapKey)
    } else {
        None
    }
}

/// Checks that a loaded configuration has been edited from the one a new file holds.
pub fn check_config(cfg: &AppConfig) -> (r: Result<(), ConfigProblem>)
    ensures
        match r {
            Ok(()) => config_problem(*cfg) is None,
            Err(p) => config_problem(*cfg) == Some(p),
        },
{
    if cfg.mmsi_lookup.len() == 0 {
        return Err(ConfigProblem::EmptyMmsiLookup);
    }
    let default_mmsi = String::from_str(DEFAULT_MMSI);
    let mut i: usize = 0;
    while i < cfg.mmsi_lookup.len()
        invariant
            i <= cfg.mmsi_lookup@.len(),
            default_mmsi@ == DEFAULT_MMSI@,
            forall|j: int| 0 <= j < i ==> (#[trigger] cfg.mmsi_lookup@[j]).mmsi@ != DEFAULT_MMSI@,
        decreases cfg.mmsi_lookup@.len() - i,
    {
        if cfg.mmsi_lookup[i].mmsi == default_mmsi {
            return Err(ConfigProblem::DefaultMmsiLookup);
        }
        i = i + 1;
    }
    if cfg.erddap_url == String::from_str(DEFAULT_URL) {
        return Err(ConfigProblem::DefaultErddapUrl);
    }
    if cfg.erddap_key == String::from_str(DEFAULT_KEY) {
        return Err(ConfigProblem::DefaultErddapKey);
    }
    Ok(())
}

/// The fields that a new configuration file publishes.
pub open spec fn default_publish_fields() -> Seq<Seq<char>> {
    seq![
        "lat"@,
        "lon"@,
        "wspeed"@,
        "wgust"@,
        "wdir"@,
        "wgustdir"@,
        "waveheight"@,
        "waveperiod"@,
    ]
}

impl Default for AppConfig {
    /// The configuration that a new configuration file holds, for the user to edit.
    fn default() -> (r: Self)
        ensures
            r.erddap_url@ == DEFAULT_URL@,
            r.erddap_key@ == DEFAULT_KEY@,
            strings_view(r.publish_fields@) == default_publish_fields(),
            string_pairs(r.rename_fields@) == seq![("lat"@, "latitude"@), ("lon"@, "longitude"@)],
            rule_pairs(r.message_config@) == seq![
                (AisMessageIdentifier { msg_type: 8, dac: Some(200), fid: Some(31) }, Seq::<u64>::empty()),
            ],
            mmsi_pairs(r.mmsi_lookup@) == seq![(DEFAULT_MMSI@, "MMSI Name"@)],
    {
        let mut publish_fields: Vec<String> = Vec::new();
        publish_fields.push(String::from_str("lat"));
        publish_fields.push(String::from_str("lon"));
        publish_fields.push(String::from_str("wspeed"));
        publish_fields.push(String::from_str("wgust"));
        publish_fields.push(String::from_str("wdir"));
        publish_fields.push(String::from_str("wgustdir"));
        publish_fields.push(String::from_str("waveheight"));
        publish_fields.push(String::from_str("waveperiod"));
        let mut rename_fields: Vec<(String, String)> = Vec::new();
        rename_fields.push((String::from_str("lat"), String::from_str("latitude")));
        rename_fields.push((String::from_str("lon"), String::from_str("longitude")));
        let mut message_config: Vec<AcceptedMessage> = Vec::new();
        message_config.push(
            AcceptedMessage { msg_type: 8, dac: Some(200), fid: Some(31), ignore_mmsi: Vec::new() },
        );
        let mut mmsi_lookup: Vec<MMSILookup> = Vec::new();
        mmsi_lookup.push(
            MMSILookup {
                mmsi: String::from_str(DEFAULT_MMSI),
                station_name: String::from_str("MMSI Name"),
            },
        );
        let r = AppConfig {
            erddap_url: String::from_str(DEFAULT_URL),
            erddap_key: String::from_str(DEFAULT_KEY),
            publish_fields,
            rename_fields,
            message_config,
            mmsi_lookup,
        };
        assert(strings_view(r.publish_fields@) =~= default_publish_fields());
        assert(string_pairs(r.rename_fields@) =~= seq![("lat"@, "latitude"@), ("lon"@, "longitude"@)]);
        assert(rule_pairs(r.message_config@) =~= seq![
            (AisMessageIdentifier { msg_type: 8, dac: Some(200), fid: Some(31) }, Seq::<u64>::empty()),
        ]);
        assert(mmsi_pairs(r.mmsi_lookup@) =~= seq![(DEFAULT_MMSI@, "MMSI Name"@)]);
        r
    }
}

/// The configuration of the running service, shared read-only by every packet.
#[derive(Debug, Clone)]
pub struct ArgsState {
    pub url: String,
    pub author_key: String,
    pub publish_fields: Vec<String>,
    pub rename_fields: StringTable,
    pub dump_all_packets: bool,
    pub dump_accepted_messages: bool,
    pub mmsi_lookup: StringTable,
    pub message_config_lookup: MessageConfigTable,
}

impl ArgsState {
    /// The service configuration built from a loaded configuration file.
    pub fn from_config(app_config: AppConfig, dump_all_packets: bool, dump_accepted_messages: bool) -> (r: Self)
        ensures
            r.url@ == app_config.erddap_url@,
            r.author_key@ == app_config.erddap_key@,
            strings_view(r.publish_fields@) == strings_view(app_config.publish_fields@),
            r.rename_fields@ == assoc_map(string_pairs(app_config.rename_fields@)),
            r.mmsi_lookup@ == assoc_map(mmsi_pairs(app_config.mmsi_lookup@)),
            r.message_config_lookup@ == assoc_map(rule_pairs(app_config.message_config@)),
            r.dump_all_packets == dump_all_packets,
            r.dump_accepted_messages == dump_accepted_messages,
    {
        let mmsi_lookup = build_mmsi_to_station_id_map(&app_config);
        let message_config_lookup = build_message_config_lookup(&app_config);
        let rename_fields = build_field_rename_map(&app_config);
        ArgsState {
            url: app_config.erddap_url,
            author_key: app_config.erddap_key,
            publish_fields: app_config.publish_fields,
            rename_fields,
            dump_all_packets,
            dump_accepted_messages,
            mmsi_lookup,
            message_config_lookup,
        }
    }
}

} // verus!
