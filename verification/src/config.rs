//! Configuration derivation: converts one workload's metadata map into the
//! structured per-group configuration consumed by the spawned proxy
//! process, applying the address-resolution, version-gating and
//! environment-to-label fallback rules.

use vstd::prelude::*;
use vstd::string::StrSliceExecFns;
use vstd::string::StringExecFns;

use crate::adapter::Adapter;
use crate::metadata::Metadata;
use crate::text::parse_i32;
use crate::text::spec_parse_i32;
use crate::text::spec_split_commas;
use crate::text::split_commas;
use crate::text::str_eq;
use crate::version::is_legacy;
use crate::version::version_lt;

verus! {

/// The `server` section of the generated configuration artifact.
pub struct ServerSection {
    pub address: Option<String>,
    pub block_banned_ips: Option<bool>,
    pub command: Option<String>,
    pub directory: Option<String>,
    pub drop_banned_ips: Option<bool>,
    pub forge: Option<bool>,
    pub freeze_process: Option<bool>,
    pub probe_on_start: Option<bool>,
    pub send_proxy_v2: Option<bool>,
    pub start_timeout: Option<i32>,
    pub stop_timeout: Option<i32>,
    pub wake_on_crash: Option<bool>,
    pub wake_on_start: Option<bool>,
    pub wake_whitelist: Option<bool>,
}

/// The `public` section: the public-facing address, version and protocol.
pub struct PublicSection {
    pub address: Option<String>,
    pub version: Option<String>,
    pub protocol: Option<i32>,
}

/// The `time` section: sleep and minimum-online timing policy.
pub struct TimeSection {
    pub minimum_online_time: Option<i32>,
    pub sleep_after: Option<i32>,
}

/// The `join.kick` subsection.
pub struct JoinKickSection {
    pub starting: Option<String>,
    pub stopping: Option<String>,
}

/// The `join.hold` subsection.
pub struct JoinHoldSection {
    pub timeout: Option<i32>,
}

/// The `join.forward` subsection.
pub struct JoinForwardSection {
    pub address: Option<String>,
    pub send_proxy_v2: Option<bool>,
}

/// The `join.lobby` subsection.
pub struct JoinLobbySection {
    pub timeout: Option<i32>,
    pub message: Option<String>,
    pub ready_sound: Option<String>,
}

/// The `join` section: join-handling policy.
pub struct JoinSection {
    pub methods: Option<Vec<String>>,
    pub kick: JoinKickSection,
    pub hold: JoinHoldSection,
    pub forward: JoinForwardSection,
    pub lobby: JoinLobbySection,
}

/// The `motd` section: the public message-of-the-day strings.
pub struct MotdSection {
    pub sleeping: Option<String>,
    pub starting: Option<String>,
    pub stopping: Option<String>,
    pub from_server: Option<bool>,
}

/// The `lockout` section.
pub struct LockoutSection {
    pub enabled: Option<bool>,
    pub message: Option<String>,
}

/// The `advanced` section.
pub struct AdvancedSection {
    pub rewrite_server_properties: Option<bool>,
}

/// The `config` section: the configuration format version consumed by the
/// chosen proxy build.
pub struct ConfigSection {
    pub version: Option<String>,
}

/// The proxy configuration-format versions handed in from the process
/// environment: one for the standard build and one for the legacy build.
pub struct ProxyVersions {
    pub version: Option<String>,
    pub legacy_version: Option<String>,
}

/// Why configuration derivation failed fatally.
#[derive(Clone, Copy, Debug, PartialEq, Eq, Structural)]
pub enum ConfigError {
    /// The required workload-address key is missing.
    MissingServerAddress,
    /// The required group key is missing.
    MissingGroup,
    /// The standard configuration-format version is not set in the
    /// environment.
    MissingVersion,
    /// The legacy configuration-format version is not set in the
    /// environment.
    MissingLegacyVersion,
}

/// A boolean-valued optional key: parsed by literal equality to the true
/// token, absent means unset.
pub open spec fn spec_bool_label(m: Metadata, key: Seq<char>) -> Option<bool> {
    match m.spec_get(key) {
        None => None,
        Some(v) => Some(v == "true"@),
    }
}

/// A numeric optional key: an unparsable value means unset.
pub open spec fn spec_int_label(m: Metadata, key: Seq<char>) -> Option<i32> {
    match m.spec_get(key) {
        None => None,
        Some(v) => spec_parse_i32(v),
    }
}

/// Whether the metadata declares a public version below the legacy
/// threshold, selecting the legacy-protocol proxy build.
pub open spec fn spec_legacy(m: Metadata) -> bool {
    match m.spec_get("lazymc.public.version"@) {
        Some(v) => version_lt(v, "1.20.3"@),
        None => false,
    }
}

/// The command line the spawned proxy uses to start the group's workload.
pub open spec fn spec_server_command(group: Seq<char>) -> Seq<char> {
    "lazymc-docker-proxy --command --adapter systemd --group "@ + group
}

/// The per-group configuration artifact's file name.
pub open spec fn spec_config_file_name(group: Seq<char>) -> Seq<char> {
    "lazymc."@ + group + ".toml"@
}

impl ServerSection {
    /// How a derived `server` section relates to the metadata it came
    /// from. `resolved` is the outcome of resolving the declared address
    /// to an IPv4 socket address; when it is unresolved the wake-on-start
    /// policy is forced true.
    pub open spec fn spec_derived(self, m: Metadata, resolved: Option<Seq<char>>) -> bool {
        &&& self.address.deep_view() == match resolved {
            Some(a) => Some(a),
            None => m.spec_get("lazymc.server.address"@),
        }
        &&& self.block_banned_ips == spec_bool_label(m, "lazymc.server.block_banned_ips"@)
        &&& self.command.deep_view() matches Some(c) && c == spec_server_command(
            m.spec_get("lazymc.group"@)->0,
        )
        &&& self.directory.deep_view() == Some(
            match m.spec_get("lazymc.server.directory"@) {
                Some(d) => d,
                None => "/server"@,
            },
        )
        &&& self.drop_banned_ips == spec_bool_label(m, "lazymc.server.drop_banned_ips"@)
        &&& self.forge == spec_bool_label(m, "lazymc.server.forge"@)
        &&& self.freeze_process == Some(false)
        &&& self.probe_on_start == spec_bool_label(m, "lazymc.server.probe_on_start"@)
        &&& self.send_proxy_v2 == spec_bool_label(m, "lazymc.server.send_proxy_v2"@)
        &&& self.start_timeout == spec_int_label(m, "lazymc.server.start_timeout"@)
        &&& self.stop_timeout == spec_int_label(m, "lazymc.server.stop_timeout"@)
        &&& self.wake_on_crash == Some(true)
        &&& self.wake_on_start == Some(resolved is None)
        &&& self.wake_whitelist == spec_bool_label(m, "lazymc.server.wake_whitelist"@)
    }
}

impl PublicSection {
    pub open spec fn spec_derived(self, m: Metadata) -> bool {
        &&& self.address.deep_view() matches Some(a) && a == "0.0.0.0:"@ + (match m.spec_get(
            "lazymc.port"@,
        ) {
            Some(p) => p,
            None => "25565"@,
        })
        &&& self.version.deep_view() == m.spec_get("lazymc.public.version"@)
        &&& self.protocol == spec_int_label(m, "lazymc.public.protocol"@)
    }
}

impl TimeSection {
    pub open spec fn spec_derived(self, m: Metadata) -> bool {
        &&& self.minimum_online_time == spec_int_label(m, "lazymc.time.minimum_online_time"@)
        &&& self.sleep_after == spec_int_label(m, "lazymc.time.sleep_after"@)
    }
}

impl JoinSection {
    pub open spec fn spec_derived(self, m: Metadata) -> bool {
        &&& self.methods.deep_view() == match m.spec_get("lazymc.join.methods"@) {
            None => None,
            Some(v) => Some(spec_split_commas(v)),
        }
        &&& self.kick.starting.deep_view() == m.spec_get("lazymc.join.kick.starting"@)
        &&& self.kick.stopping.deep_view() == m.spec_get("lazymc.join.kick.stopping"@)
        &&& self.hold.timeout == spec_int_label(m, "lazymc.join.hold.timeout"@)
        &&& self.forward.address.deep_view() == m.spec_get("lazymc.join.forward.address"@)
        &&& self.forward.send_proxy_v2 == spec_bool_label(m, "lazymc.join.forward.send_proxy_v2"@)
        &&& self.lobby.timeout == spec_int_label(m, "lazymc.join.lobby.timeout"@)
        &&& self.lobby.message.deep_view() == m.spec_get("lazymc.join.lobby.message"@)
        &&& self.lobby.ready_sound.deep_view() == m.spec_get("lazymc.join.lobby.sound"@)
    }
}

impl MotdSection {
    pub open spec fn spec_derived(self, m: Metadata) -> bool {
        &&& self.sleeping.deep_view() == m.spec_get("lazymc.motd.sleeping"@)
        &&& self.starting.deep_view() == m.spec_get("lazymc.motd.starting"@)
        &&& self.stopping.deep_view() == m.spec_get("lazymc.motd.stopping"@)
        &&& self.from_server == spec_bool_label(m, "lazymc.motd.from_server"@)
    }
}

impl LockoutSection {
    pub open spec fn spec_derived(self, m: Metadata) -> bool {
        &&& self.enabled == spec_bool_label(m, "lazymc.lockout.enabled"@)
        &&& self.message.deep_view() == m.spec_get("lazymc.lockout.message"@)
    }
}

/// The derived, immutable per-group configuration record.
pub struct Config {
    pub advanced: AdvancedSection,
    pub config: ConfigSection,
    pub join: JoinSection,
    pub lockout: LockoutSection,
    pub motd: MotdSection,
    pub public: PublicSection,
    pub server: ServerSection,
    pub time: TimeSection,
    /// The proxy binary this group runs: the standard or the legacy build.
    pub start_command: String,
    /// The per-group configuration artifact's file name.
    pub config_file: String,
    /// The group joining this configuration to its workload.
    pub group: String,
    /// Whether the declared address resolved to an IPv4 socket address.
    pub resolved_ip: bool,
}

impl Config {
    /// How a fully derived configuration relates to the metadata map, the
    /// address-resolution outcome, and the configuration-format versions
    /// from the environment.
    pub open spec fn spec_derived(
        self,
        m: Metadata,
        resolved: Option<Seq<char>>,
        versions: ProxyVersions,
    ) -> bool {
        &&& self.server.spec_derived(m, resolved)
        &&& self.public.spec_derived(m)
        &&& self.time.spec_derived(m)
        &&& self.join.spec_derived(m)
        &&& self.motd.spec_derived(m)
        &&& self.lockout.spec_derived(m)
        &&& self.advanced.rewrite_server_properties == Some(false)
        &&& self.config.version.deep_view() == Some(
            if spec_legacy(m) {
                versions.legacy_version.deep_view()->0
            } else {
                versions.version.deep_view()->0
            },
        )
        &&& self.start_command@ == if spec_legacy(m) {
            "lazymc-legacy"@
        } else {
            "lazymc"@
        }
        &&& self.group@ == m.spec_get("lazymc.group"@)->0
        &&& self.config_file@ == spec_config_file_name(m.spec_get("lazymc.group"@)->0)
        &&& self.resolved_ip == (resolved is Some)
    }

    /// The group name this configuration belongs to.
    pub fn group(&self) -> (r: &String)
        ensures
            r@ == self.group@,
    {
        &self.group
    }

    /// The program and arguments that launch the proxy for this group. If
    /// the declared address did not resolve, the group's workload is
    /// started through the adapter first, so the proxy cannot assume the
    /// workload is already reachable.
    pub fn start_command<T: Adapter>(&self) -> (r: Vec<String>)
        ensures
            r.deep_view() =~= seq![
                self.start_command@,
                "start"@,
                "--config"@,
                self.config_file@,
            ],
    {
        if !self.resolved_ip {
            T::start(self.group());
        }
        let mut command: Vec<String> = Vec::new();
        command.push(self.start_command.clone());
        command.push(String::from_str("start"));
        command.push(String::from_str("--config"));
        command.push(self.config_file.clone());
        command
    }
}

fn bool_label(m: &Metadata, key: &str) -> (r: Option<bool>)
    ensures
        r == spec_bool_label(*m, key@),
{
    match m.get(key) {
        None => None,
        Some(v) => Some(str_eq(v.as_str(), "true")),
    }
}

fn int_label(m: &Metadata, key: &str) -> (r: Option<i32>)
    ensures
        r == spec_int_label(*m, key@),
{
    match m.get(key) {
        None => None,
        Some(v) => parse_i32(v.as_str()),
    }
}

fn string_label(m: &Metadata, key: &str) -> (r: Option<String>)
    ensures
        r.deep_view() == m.spec_get(key@),
{
    match m.get(key) {
        None => None,
        Some(v) => Some(v.clone()),
    }
}

impl Config {
    /// Derive one group's configuration from its metadata map.
    ///
    /// `resolved_address` is the outcome of resolving the declared
    /// workload address to an IPv4 socket address, performed at the
    /// discovery boundary; `versions` carries the configuration-format
    /// versions from the process environment. Missing either required key,
    /// or the needed format version, is a fatal configuration error.
    pub fn from_container_labels(
        labels: &Metadata,
        resolved_address: Option<String>,
        versions: &ProxyVersions,
    ) -> (r: Result<Config, ConfigError>)
        ensures
            match r {
                Ok(c) => {
                    &&& labels.spec_get("lazymc.server.address"@) is Some
                    &&& labels.spec_get("lazymc.group"@) is Some
                    &&& (if spec_legacy(*labels) {
                        versions.legacy_version is Some
                    } else {
                        versions.version is Some
                    })
                    &&& c.spec_derived(*labels, resolved_address.deep_view(), *versions)
                },
                Err(ConfigError::MissingServerAddress) => labels.spec_get(
                    "lazymc.server.address"@,
                ) is None,
                Err(ConfigError::MissingGroup) => {
                    &&& labels.spec_get("lazymc.server.address"@) is Some
                    &&& labels.spec_get("lazymc.group"@) is None
                },
                Err(ConfigError::MissingLegacyVersion) => {
                    &&& labels.spec_get("lazymc.server.address"@) is Some
                    &&& labels.spec_get("lazymc.group"@) is Some
                    &&& spec_legacy(*labels)
                    &&& versions.legacy_version is None
                },
                Err(ConfigError::MissingVersion) => {
                    &&& labels.spec_get("lazymc.server.address"@) is Some
                    &&& labels.spec_get("lazymc.group"@) is Some
                    &&& !spec_legacy(*labels)
                    &&& versions.version is None
                },
            },
{
        let address_label = match string_label(labels, "lazymc.server.address") {
            Some(a) => a,
            None => {
                return Err(ConfigError::MissingServerAddress);
            },
        };
        let group = match string_label(labels, "lazymc.group") {
            Some(g) => g,
            None => {
                return Err(ConfigError::MissingGroup);
            },
        };

        let legacy = is_legacy(&string_label(labels, "lazymc.public.version"));
        let config_version = if legacy {
            match &versions.legacy_version {
                Some(v) => v.clone(),
                None => {
                    return Err(ConfigError::MissingLegacyVersion);
                },
            }
        } else {
            match &versions.version {
                Some(v) => v.clone(),
                None => {
                    return Err(ConfigError::MissingVersion);
                },
            }
        };

        let resolved_ip = resolved_address.is_some();
        let server_address = match resolved_address {
            Some(a) => a,
            None => address_label,
        };

        let server_section = ServerSection {
            address: Some(server_address),
            block_banned_ips: bool_label(labels, "lazymc.server.block_banned_ips"),
            command: Some(
                String::from_str("lazymc-docker-proxy --command --adapter systemd --group ")
                    .concat(group.as_str()),
            ),
            directory: Some(
                match string_label(labels, "lazymc.server.directory") {
                    Some(d) => d,
                    None => String::from_str("/server"),
                },
            ),
            drop_banned_ips: bool_label(labels, "lazymc.server.drop_banned_ips"),
            forge: bool_label(labels, "lazymc.server.forge"),
            freeze_process: Some(false),
            probe_on_start: bool_label(labels, "lazymc.server.probe_on_start"),
            send_proxy_v2: bool_label(labels, "lazymc.server.send_proxy_v2"),
            start_timeout: int_label(labels, "lazymc.server.start_timeout"),
            stop_timeout: int_label(labels, "lazymc.server.stop_timeout"),
            wake_on_crash: Some(true),
            // If the address was not resolved, the proxy must wake the
            // workload on start.
            wake_on_start: Some(!resolved_ip),
            wake_whitelist: bool_label(labels, "lazymc.server.wake_whitelist"),
        };

        let port_text = match labels.get("lazymc.port") {
            Some(p) => p.clone(),
            None => String::from_str("25565"),
        };
        let public_section = PublicSection {
            address: Some(String::from_str("0.0.0.0:").concat(port_text.as_str())),
            version: string_label(labels, "lazymc.public.version"),
            protocol: int_label(labels, "lazymc.public.protocol"),
        };

        let time_section = TimeSection {
            minimum_online_time: int_label(labels, "lazymc.time.minimum_online_time"),
            sleep_after: int_label(labels, "lazymc.time.sleep_after"),
        };

        let join_section = JoinSection {
            methods: match labels.get("lazymc.join.methods") {
                None => None,
                Some(v) => Some(split_commas(v.as_str())),
            },
            kick: JoinKickSection {
                starting: string_label(labels, "lazymc.join.kick.starting"),
                stopping: string_label(labels, "lazymc.join.kick.stopping"),
            },
            hold: JoinHoldSection { timeout: int_label(labels, "lazymc.join.hold.timeout") },
            forward: JoinForwardSection {
                address: string_label(labels, "lazymc.join.forward.address"),
                send_proxy_v2: bool_label(labels, "lazymc.join.forward.send_proxy_v2"),
            },
            lobby: JoinLobbySection {
                timeout: int_label(labels, "lazymc.join.lobby.timeout"),
                message: string_label(labels, "lazymc.join.lobby.message"),
                ready_sound: string_label(labels, "lazymc.join.lobby.sound"),
            },
        };

        let motd_section = MotdSection {
            sleeping: string_label(labels, "lazymc.motd.sleeping"),
            starting: string_label(labels, "lazymc.motd.starting"),
            stopping: string_label(labels, "lazymc.motd.stopping"),
            from_server: bool_label(labels, "lazymc.motd.from_server"),
        };

        let lockout_section = LockoutSection {
            enabled: bool_label(labels, "lazymc.lockout.enabled"),
            message: string_label(labels, "lazymc.lockout.message"),
        };

        let config = Config {
            advanced: AdvancedSection { rewrite_server_properties: Some(false) },
            config: ConfigSection { version: Some(config_version) },
            join: join_section,
            lockout: lockout_section,
            motd: motd_section,
            public: public_section,
            server: server_section,
            time: time_section,
            start_command: if legacy {
                String::from_str("lazymc-legacy")
            } else {
                String::from_str("lazymc")
            },
            config_file: String::from_str("lazymc.").concat(group.as_str()).concat(".toml"),
            group,
            resolved_ip,
        };

        Ok(config)
    }
}

/// The metadata key an environment-variable name maps onto, if it is one
/// of the fixed namespaced names of the legacy schema.
pub open spec fn spec_env_key(k: Seq<char>) -> Option<Seq<char>> {
    if k == "LAZYMC_SERVER_ADDRESS"@ {
        Some("lazymc.server.address"@)
    } else if k == "LAZYMC_GROUP"@ {
        Some("lazymc.group"@)
    } else if k == "LAZYMC_SERVER_DIRECTORY"@ {
        Some("lazymc.server.directory"@)
    } else if k == "LAZYMC_SERVER_WAKE_WHITELIST"@ {
        Some("lazymc.server.wake_whitelist"@)
    } else if k == "LAZYMC_SERVER_BLOCK_BANNED_IPS"@ {
        Some("lazymc.server.block_banned_ips"@)
    } else if k == "LAZYMC_SERVER_DROP_BANNED_IPS"@ {
        Some("lazymc.server.drop_banned_ips"@)
    } else if k == "LAZYMC_SERVER_PROBE_ON_START"@ {
        Some("lazymc.server.probe_on_start"@)
    } else if k == "LAZYMC_SERVER_FORGE"@ {
        Some("lazymc.server.forge"@)
    } else if k == "LAZYMC_SERVER_START_TIMEOUT"@ {
        Some("lazymc.server.start_timeout"@)
    } else if k == "LAZYMC_SERVER_STOP_TIMEOUT"@ {
        Some("lazymc.server.stop_timeout"@)
    } else if k == "LAZYMC_SERVER_SEND_PROXY_V2"@ {
        Some("lazymc.server.send_proxy_v2"@)
    } else if k == "LAZYMC_TIME_SLEEP_AFTER"@ {
        Some("lazymc.time.sleep_after"@)
    } else if k == "LAZYMC_TIME_MINIMUM_ONLINE_TIME"@ {
        Some("lazymc.time.minimum_online_time"@)
    } else if k == "LAZYMC_JOIN_KICK_STARTING"@ {
        Some("lazymc.join.kick.starting"@)
    } else if k == "LAZYMC_JOIN_KICK_STOPPING"@ {
        Some("lazymc.join.kick.stopping"@)
    } else if k == "LAZYMC_JOIN_HOLD_TIMEOUT"@ {
        Some("lazymc.join.hold.timeout"@)
    } else if k == "LAZYMC_JOIN_FORWARD_ADDRESS"@ {
        Some("lazymc.join.forward.address"@)
    } else if k == "LAZYMC_JOIN_FORWARD_SEND_PROXY_V2"@ {
        Some("lazymc.join.forward.send_proxy_v2"@)
    } else if k == "LAZYMC_JOIN_LOBBY_TIMEOUT"@ {
        Some("lazymc.join.lobby.timeout"@)
    } else if k == "LAZYMC_JOIN_LOBBY_MESSAGE"@ {
        Some("lazymc.join.lobby.message"@)
    } else if k == "LAZYMC_JOIN_LOBBY_SOUND"@ {
        Some("lazymc.join.lobby.sound"@)
    } else if k == "LAZYMC_JOIN_METHODS"@ {
        Some("lazymc.join.methods"@)
    } else if k == "LAZYMC_PORT"@ {
        Some("lazymc.port"@)
    } else if k == "LAZYMC_PUBLIC_VERSION"@ {
        Some("lazymc.public.version"@)
    } else if k == "LAZYMC_PUBLIC_PROTOCOL"@ {
        Some("lazymc.public.protocol"@)
    } else if k == "LAZYMC_MOTD_SLEEPING"@ {
        Some("lazymc.motd.sleeping"@)
    } else if k == "LAZYMC_MOTD_STARTING"@ {
        Some("lazymc.motd.starting"@)
    } else if k == "LAZYMC_MOTD_STOPPING"@ {
        Some("lazymc.motd.stopping"@)
    } else if k == "LAZYMC_MOTD_FROM_SERVER"@ {
        Some("lazymc.motd.from_server"@)
    } else if k == "LAZYMC_LOCKOUT_ENABLED"@ {
        Some("lazymc.lockout.enabled"@)
    } else if k == "LAZYMC_LOCKOUT_MESSAGE"@ {
        Some("lazymc.lockout.message"@)
    } else {
        None
    }
}

/// The legacy environment schema carried over onto the metadata schema:
/// each recognized name becomes its metadata key, in order; unrecognized
/// names are dropped.
pub open spec fn spec_env_to_label(s: Seq<(Seq<char>, Seq<char>)>) -> Seq<(Seq<char>, Seq<char>)>
    decreases s.len(),
{
    if s.len() == 0 {
        Seq::empty()
    } else {
        let rest = spec_env_to_label(s.drop_last());
        match spec_env_key(s.last().0) {
            Some(k) => rest.push((k, s.last().1)),
            None => rest,
        }
    }
}

fn env_key_to_label(k: &str) -> (r: Option<&'static str>)
    ensures
        match r {
            Some(l) => spec_env_key(k@) == Some(l@),
            None => spec_env_key(k@) is None,
        },
{
    if str_eq(k, "LAZYMC_SERVER_ADDRESS") {
        Some("lazymc.server.address")
    } else if str_eq(k, "LAZYMC_GROUP") {
        Some("lazymc.group")
    } else if str_eq(k, "LAZYMC_SERVER_DIRECTORY") {
        Some("lazymc.server.directory")
    } else if str_eq(k, "LAZYMC_SERVER_WAKE_WHITELIST") {
        Some("lazymc.server.wake_whitelist")
    } else if str_eq(k, "LAZYMC_SERVER_BLOCK_BANNED_IPS") {
        Some("lazymc.server.block_banned_ips")
    } else if str_eq(k, "LAZYMC_SERVER_DROP_BANNED_IPS") {
        Some("lazymc.server.drop_banned_ips")
    } else if str_eq(k, "LAZYMC_SERVER_PROBE_ON_START") {
        Some("lazymc.server.probe_on_start")
    } else if str_eq(k, "LAZYMC_SERVER_FORGE") {
        Some("lazymc.server.forge")
    } else if str_eq(k, "LAZYMC_SERVER_START_TIMEOUT") {
        Some("lazymc.server.start_timeout")
    } else if str_eq(k, "LAZYMC_SERVER_STOP_TIMEOUT") {
        Some("lazymc.server.stop_timeout")
    } else if str_eq(k, "LAZYMC_SERVER_SEND_PROXY_V2") {
        Some("lazymc.server.send_proxy_v2")
    } else if str_eq(k, "LAZYMC_TIME_SLEEP_AFTER") {
        Some("lazymc.time.sleep_after")
    } else if str_eq(k, "LAZYMC_TIME_MINIMUM_ONLINE_TIME") {
        Some("lazymc.time.minimum_online_time")
    } else if str_eq(k, "LAZYMC_JOIN_KICK_STARTING") {
        Some("lazymc.join.kick.starting")
    } else if str_eq(k, "LAZYMC_JOIN_KICK_STOPPING") {
        Some("lazymc.join.kick.stopping")
    } else if str_eq(k, "LAZYMC_JOIN_HOLD_TIMEOUT") {
        Some("lazymc.join.hold.timeout")
    } else if str_eq(k, "LAZYMC_JOIN_FORWARD_ADDRESS") {
        Some("lazymc.join.forward.address")
    } else if str_eq(k, "LAZYMC_JOIN_FORWARD_SEND_PROXY_V2") {
        Some("lazymc.join.forward.send_proxy_v2")
    } else if str_eq(k, "LAZYMC_JOIN_LOBBY_TIMEOUT") {
        Some("lazymc.join.lobby.timeout")
    } else if str_eq(k, "LAZYMC_JOIN_LOBBY_MESSAGE") {
        Some("lazymc.join.lobby.message")
    } else if str_eq(k, "LAZYMC_JOIN_LOBBY_SOUND") {
        Some("lazymc.join.lobby.sound")
    } else if str_eq(k, "LAZYMC_JOIN_METHODS") {
        Some("lazymc.join.methods")
    } else if str_eq(k, "LAZYMC_PORT") {
        Some("lazymc.port")
    } else if str_eq(k, "LAZYMC_PUBLIC_VERSION") {
        Some("lazymc.public.version")
    } else if str_eq(k, "LAZYMC_PUBLIC_PROTOCOL") {
        Some("lazymc.public.protocol")
    } else if str_eq(k, "LAZYMC_MOTD_SLEEPING") {
        Some("lazymc.motd.sleeping")
    } else if str_eq(k, "LAZYMC_MOTD_STARTING") {
        Some("lazymc.motd.starting")
    } else if str_eq(k, "LAZYMC_MOTD_STOPPING") {
        Some("lazymc.motd.stopping")
    } else if str_eq(k, "LAZYMC_MOTD_FROM_SERVER") {
        Some("lazymc.motd.from_server")
    } else if str_eq(k, "LAZYMC_LOCKOUT_ENABLED") {
        Some("lazymc.lockout.enabled")
    } else if str_eq(k, "LAZYMC_LOCKOUT_MESSAGE") {
        Some("lazymc.lockout.message")
    } else {
        None
    }
}

impl Config {
    /// Map a service-unit environment onto the metadata schema, for
    /// environments that cannot label individual workloads: each fixed
    /// namespaced environment name becomes its metadata key; other
    /// variables are dropped.
    pub fn environment_to_label(environment: &Metadata) -> (r: Metadata)
        ensures
            r@ =~= spec_env_to_label(environment@),
    {
        let n = environment.len();
        let mut out = Metadata::new();
        let mut i: usize = 0;
        proof {
            assert(environment@.subrange(0, 0) =~= Seq::<(Seq<char>, Seq<char>)>::empty());
        }
        while i < n
            invariant
                0 <= i <= n,
                n == environment@.len(),
                out@ =~= spec_env_to_label(environment@.subrange(0, i as int)),
            decreases n - i,
        {
            proof {
                let q = environment@.subrange(0, (i + 1) as int);
                assert(q.drop_last() =~= environment@.subrange(0, i as int));
                assert(q.last() == environment@[i as int]);
            }
            let key = environment.key_at(i);
            match env_key_to_label(key.as_str()) {
                Some(label_key) => {
                    let value = environment.value_at(i);
                    out.insert(String::from_str(label_key), value.clone());
                },
                None => {},
            }
            i += 1;
        }
        proof {
            assert(environment@.subrange(0, n as int) =~= environment@);
        }
        out
    }
}

/// Distinct groups get distinct configuration artifacts: the artifact file
/// name determines the group name.
pub proof fn lemma_config_file_name_injective(g1: Seq<char>, g2: Seq<char>)
    requires
        spec_config_file_name(g1) == spec_config_file_name(g2),
    ensures
        g1 == g2,
{
    let p = "lazymc."@;
    let s = ".toml"@;
    let n1 = (p + g1 + s).len();
    assert(g1.len() == n1 - p.len() - s.len());
    assert(g2.len() == n1 - p.len() - s.len());
    assert forall|i: int| 0 <= i < g1.len() implies g1[i] == g2[i] by {
        assert((p + g1 + s)[p.len() + i] == g1[i]);
        assert((p + g2 + s)[p.len() + i] == g2[i]);
    }
    assert(g1 =~= g2);
}

} // verus!
