use vstd::prelude::*;

use rdkafka::config::RDKafkaLogLevel;
use rdkafka::ClientConfig;

verus! {

#[verifier::external_type_specification]
#[verifier::external_body]
pub struct ExClientConfig(ClientConfig);

/// The log levels of librdkafka, most severe first.
#[derive(Clone, Copy, Debug, PartialEq, Eq, Structural)]
pub enum KafkaLogLevel {
    Emerg,
    Alert,
    Critical,
    Error,
    Warning,
    Notice,
    Info,
    Debug,
}

/// The parameters that a Kafka client configuration holds, by name.
pub uninterp spec fn client_config_entries(config: ClientConfig) -> Map<Seq<char>, Seq<char>>;

/// The log level that a Kafka client configuration was given.
pub uninterp spec fn client_config_log_level(config: ClientConfig) -> KafkaLogLevel;

/// `rdkafka::ClientConfig::new`: the new configuration holds no parameter.
/// Its log level is derived from the global configuration of the `log`
/// crate, which is not stated.
#[verifier::external_body]
fn client_config_new() -> (fresh: ClientConfig)
    ensures
        client_config_entries(fresh) == no_settings(),
{
    ClientConfig::new()
}

/// `rdkafka::ClientConfig::set`: inserts `value` under `key`, overriding any
/// earlier value of that key; the log level stays.
#[verifier::external_body]
fn client_config_set(config: &mut ClientConfig, key: &str, value: &str)
    ensures
        client_config_entries(*final(config)) == client_config_entries(*old(config)).insert(key@, value@),
        client_config_log_level(*final(config)) == client_config_log_level(*old(config)),
{
    config.set(key, value);
}

/// `rdkafka::ClientConfig::set_log_level`: replaces the log level; the
/// parameters stay.
#[verifier::external_body]
fn client_config_set_log_level(config: &mut ClientConfig, level: KafkaLogLevel)
    ensures
        client_config_entries(*final(config)) == client_config_entries(*old(config)),
        client_config_log_level(*final(config)) == level,
{
    let level = match level {
        KafkaLogLevel::Emerg => RDKafkaLogLevel::Emerg,
        KafkaLogLevel::Alert => RDKafkaLogLevel::Alert,
        KafkaLogLevel::Critical => RDKafkaLogLevel::Critical,
        KafkaLogLevel::Error => RDKafkaLogLevel::Error,
        KafkaLogLevel::Warning => RDKafkaLogLevel::Warning,
        KafkaLogLevel::Notice => RDKafkaLogLevel::Notice,
        KafkaLogLevel::Info => RDKafkaLogLevel::Info,
        KafkaLogLevel::Debug => RDKafkaLogLevel::Debug,
    };
    config.set_log_level(level);
}

/// A configuration without any parameter.
pub open spec fn no_settings() -> Map<Seq<char>, Seq<char>> {
    Map::empty()
}

/// The parameters of the producer's client configuration.
pub open spec fn producer_settings(broker: Seq<char>) -> Map<Seq<char>, Seq<char>> {
    no_settings()
        .insert("bootstrap.servers"@, broker)
        .insert("message.timeout.ms"@, "5000"@)
}

/// The parameters of the consumer's client configuration.
pub open spec fn consumer_settings(brokers: Seq<char>, group_id: Seq<char>) -> Map<Seq<char>, Seq<char>> {
    no_settings()
        .insert("group.id"@, group_id)
        .insert("bootstrap.servers"@, brokers)
        .insert("enable.partition.eof"@, "false"@)
        .insert("session.timeout.ms"@, "6000"@)
        .insert("enable.auto.commit"@, "true"@)
}

/// The client configuration from which the Kafka producer is created:
/// the broker list and a message timeout of five seconds.
pub fn producer_client_config(broker: &str) -> (config: ClientConfig)
    ensures
        client_config_entries(config) == producer_settings(broker@),
{
    let mut config = client_config_new();
    client_config_set(&mut config, "bootstrap.servers", broker);
    client_config_set(&mut config, "message.timeout.ms", "5000");
    config
}

/// The client configuration from which the Kafka consumer is created:
/// its group, the broker list, no end-of-partition events, a six second
/// session timeout, automatic commits, and librdkafka logging at debug level.
pub fn consumer_client_config(brokers: &str, group_id: &str) -> (config: ClientConfig)
    ensures
        client_config_entries(config) == consumer_settings(brokers@, group_id@),
        client_config_log_level(config) == KafkaLogLevel::Debug,
{
    let mut config = client_config_new();
    client_config_set(&mut config, "group.id", group_id);
    client_config_set(&mut config, "bootstrap.servers", brokers);
    client_config_set(&mut config, "enable.partition.eof", "false");
    client_config_set(&mut config, "session.timeout.ms", "6000");
    client_config_set(&mut config, "enable.auto.commit", "true");
    client_config_set_log_level(&mut config, KafkaLogLevel::Debug);
    config
}

} // verus!
