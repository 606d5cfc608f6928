//! Classification and field transformation of AIS meteorological messages
//! before they are published to an ERDDAP time-series archive.

pub mod text;
pub mod decimal;
pub mod json;
pub mod table;
pub mod identifier;
pub mod station;
pub mod weather;
pub mod config;
pub mod publish;
pub mod packet;

pub use config::{
    build_field_rename_map, build_message_config_lookup, build_mmsi_to_station_id_map, check_config,
    AcceptedMessage, AppConfig, ArgsState, ConfigProblem, MMSILookup, MessageConfigTable,
    PerMessageConfig, DEFAULT_KEY, DEFAULT_MMSI, DEFAULT_URL,
};
pub use identifier::AisMessageIdentifier;
pub use json::{AisMessage, JsonNumber, JsonValue};
pub use packet::{
    process_message, process_packet, AisCatcherDevice, AisCatcherMessage, AisCatcherReceiver,
    MessageOutcome, PacketReport,
};
pub use publish::{build_and_filter_weather_data, build_query_args, insert_url, rename_weather_keys};
pub use station::{AisStationData, DecodeError, UtcTime};
pub use table::StringTable;
pub use weather::AisType8Dac200Fid31;
