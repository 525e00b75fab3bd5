//! The controller's configuration: the settings and the nodes that a YAML
//! document gives, with the defaults for what it leaves out.

use vstd::prelude::*;
use vstd::string::StringExecFns;
use crate::text::{replace, replaced};

verus! {

/// A parsed YAML value of `yaml_rust`. Nothing is known of what is
/// inside; it is read through the functions below.
#[verifier::external_type_specification]
#[verifier::external_body]
pub struct ExYaml(yaml_rust::Yaml);

/// The error with which `yaml_rust` refuses a text.
#[verifier::external_type_specification]
#[verifier::external_body]
pub struct ExScanError(yaml_rust::ScanError);

/// What `yaml_rust::YamlLoader::load_from_str` gives for a text: the
/// documents that it reads from the text, in order, or the error with
/// which it refuses the text.
pub uninterp spec fn yaml_loaded(source: Seq<char>) -> Result<
    Seq<yaml_rust::Yaml>,
    yaml_rust::ScanError,
>;

/// The text in which a `yaml_rust::ScanError` says what is wrong and
/// where.
pub uninterp spec fn scan_error_text(error: yaml_rust::ScanError) -> Seq<char>;

/// The documents of a YAML text.
///
/// Rests on `yaml_rust::YamlLoader::load_from_str`, which reads the
/// characters of the text and nothing else. The contract only names the
/// result.
#[verifier::external_body]
pub(crate) fn load_documents(source: &str) -> (r: Result<
    Vec<yaml_rust::Yaml>,
    yaml_rust::ScanError,
>)
    ensures
        r matches Ok(documents) ==> yaml_loaded(source@) is Ok && yaml_loaded(source@)->Ok_0
            == documents@,
        r matches Err(error) ==> yaml_loaded(source@) is Err && yaml_loaded(source@)->Err_0
            == error,
{
    yaml_rust::YamlLoader::load_from_str(source)
}

/// What a parse error says.
///
/// Rests on the `Display` of `yaml_rust::ScanError`, which writes the
/// error's message with its line and column. The contract only names the
/// result.
#[verifier::external_body]
pub(crate) fn error_text(error: &yaml_rust::ScanError) -> (r: String)
    ensures
        r@ == scan_error_text(*error),
{
    error.to_string()
}

/// The texts that a YAML value holds, by the path of keys that leads to
/// each: under the path of one key what a hash holds as a string under
/// that key, under a path of two keys what the hash under the first key
/// holds as a string under the second.
pub uninterp spec fn yaml_texts(doc: yaml_rust::Yaml) -> Map<Seq<Seq<char>>, Seq<char>>;

/// The integers that a YAML value holds, by the path of keys that leads
/// to each, as for the texts.
pub uninterp spec fn yaml_ints(doc: yaml_rust::Yaml) -> Map<Seq<Seq<char>>, i64>;

/// The items of the arrays that a YAML value holds, in order, by the path
/// of keys that leads to each array, as for the texts.
pub uninterp spec fn yaml_items(doc: yaml_rust::Yaml) -> Map<Seq<Seq<char>>, Seq<yaml_rust::Yaml>>;

/// The text that `doc` holds under `path`, if it holds one.
pub open spec fn text_under(doc: yaml_rust::Yaml, path: Seq<Seq<char>>) -> Option<Seq<char>> {
    if yaml_texts(doc).contains_key(path) {
        Some(yaml_texts(doc)[path])
    } else {
        None
    }
}

/// The integer that `doc` holds under `path`, if it holds one.
pub open spec fn int_under(doc: yaml_rust::Yaml, path: Seq<Seq<char>>) -> Option<i64> {
    if yaml_ints(doc).contains_key(path) {
        Some(yaml_ints(doc)[path])
    } else {
        None
    }
}

/// The value of an optional text.
pub open spec fn text_view(text: Option<String>) -> Option<Seq<char>> {
    match text {
        Some(t) => Some(t@),
        None => None,
    }
}

/// The text under `key` in a YAML hash; `None` where `doc` is no hash, has
/// no such key, or holds no string there.
///
/// Rests on `yaml_rust::Yaml`'s indexing by a string and on
/// `Yaml::as_str`. The contract says that the result is the text that the
/// value holds under the path of this one key.
#[verifier::external_body]
pub(crate) fn text_at(doc: &yaml_rust::Yaml, key: &str) -> (r: Option<String>)
    ensures
        r.is_some() == yaml_texts(*doc).contains_key(seq![key@]),
        r matches Some(text) ==> text@ == yaml_texts(*doc)[seq![key@]],
{
    match doc[key].as_str() {
        Some(s) => Some(s.to_string()),
        None => None,
    }
}

/// The text under `key` in the hash under `section`.
///
/// Rests on `yaml_rust::Yaml`'s indexing by a string, twice, and on
/// `Yaml::as_str`. The contract says that the result is the text that the
/// value holds under the path of these two keys.
#[verifier::external_body]
pub(crate) fn text_in(doc: &yaml_rust::Yaml, section: &str, key: &str) -> (r: Option<String>)
    ensures
        r.is_some() == yaml_texts(*doc).contains_key(seq![section@, key@]),
        r matches Some(text) ==> text@ == yaml_texts(*doc)[seq![section@, key@]],
{
    match doc[section][key].as_str() {
        Some(s) => Some(s.to_string()),
        None => None,
    }
}

/// The integer under `key` in a YAML hash.
///
/// Rests on `yaml_rust::Yaml`'s indexing by a string and on
/// `Yaml::as_i64`. The contract says that the result is the integer that
/// the value holds under the path of this one key.
#[verifier::external_body]
pub(crate) fn int_at(doc: &yaml_rust::Yaml, key: &str) -> (r: Option<i64>)
    ensures
        r.is_some() == yaml_ints(*doc).contains_key(seq![key@]),
        r matches Some(number) ==> number == yaml_ints(*doc)[seq![key@]],
{
    doc[key].as_i64()
}

/// The integer under `key` in the hash under `section`.
///
/// Rests on `yaml_rust::Yaml`'s indexing by a string, twice, and on
/// `Yaml::as_i64`. The contract says that the result is the integer that
/// the value holds under the path of these two keys.
#[verifier::external_body]
pub(crate) fn int_in(doc: &yaml_rust::Yaml, section: &str, key: &str) -> (r: Option<i64>)
    ensures
        r.is_some() == yaml_ints(*doc).contains_key(seq![section@, key@]),
        r matches Some(number) ==> number == yaml_ints(*doc)[seq![section@, key@]],
{
    doc[section][key].as_i64()
}

/// The items of the array under `key` in a YAML hash; `None` where there
/// is no array.
///
/// Rests on `yaml_rust::Yaml`'s indexing by a string and on
/// `Yaml::as_vec`. The contract says that there are items exactly where
/// the value holds an array under the path of this one key, and that
/// they are the items of that array, in order.
#[verifier::external_body]
pub(crate) fn items_at(doc: &yaml_rust::Yaml, key: &str) -> (r: Option<Vec<yaml_rust::Yaml>>)
    ensures
        r.is_some() == yaml_items(*doc).contains_key(seq![key@]),
        r matches Some(items) ==> items@ == yaml_items(*doc)[seq![key@]],
{
    doc[key].as_vec().cloned()
}

/// Why a configuration text gave no configuration.
#[derive(Clone, Debug, PartialEq, Eq)]
pub enum ConfigError {
    /// The text is no YAML; `reason` is what the parser said.
    Malformed { reason: String },
    /// The text holds no document.
    Empty,
    /// The document holds no list of nodes.
    NoNodes,
}

/// Mathematical value of a [`ConfigError`].
pub enum ConfigErrorView {
    Malformed { reason: Seq<char> },
    Empty,
    NoNodes,
}

impl View for ConfigError {
    type V = ConfigErrorView;

    open spec fn view(&self) -> ConfigErrorView {
        match *self {
            ConfigError::Malformed { reason } => ConfigErrorView::Malformed { reason: reason@ },
            ConfigError::Empty => ConfigErrorView::Empty,
            ConfigError::NoNodes => ConfigErrorView::NoNodes,
        }
    }
}

/// The value of a document or the error in its place.
pub open spec fn outcome_view(outcome: Result<yaml_rust::Yaml, ConfigError>) -> Result<
    yaml_rust::Yaml,
    ConfigErrorView,
> {
    match outcome {
        Ok(document) => Ok(document),
        Err(error) => Err(error@),
    }
}

/// The first of the documents that were read from a text; the parser's
/// error, with what it said, where it refused the text.
pub open spec fn first_of_documents(
    loaded: Result<Seq<yaml_rust::Yaml>, yaml_rust::ScanError>,
) -> Result<yaml_rust::Yaml, ConfigErrorView> {
    match loaded {
        Ok(documents) => if documents.len() > 0 {
            Ok(documents[0])
        } else {
            Err(ConfigErrorView::Empty)
        },
        Err(error) => Err(ConfigErrorView::Malformed { reason: scan_error_text(error) }),
    }
}

/// The first document of a YAML text. A text that is no YAML is refused
/// with what the parser said of it.
pub fn first_document(source: &str) -> (r: Result<yaml_rust::Yaml, ConfigError>)
    ensures
        outcome_view(r) == first_of_documents(yaml_loaded(source@)),
{
    match load_documents(source) {
        Ok(documents) => first_of(documents),
        Err(error) => Err(ConfigError::Malformed { reason: error_text(&error) }),
    }
}

/// The first of the documents that a text gave.
pub fn first_of(documents: Vec<yaml_rust::Yaml>) -> (r: Result<yaml_rust::Yaml, ConfigError>)
    ensures
        outcome_view(r) == first_of_documents(
            Ok::<Seq<yaml_rust::Yaml>, yaml_rust::ScanError>(documents@),
        ),
{
    let mut documents = documents;
    if documents.len() > 0 {
        Ok(documents.swap_remove(0))
    } else {
        Err(ConfigError::Empty)
    }
}

/// The controller's settings.
#[derive(Clone, Debug)]
pub struct Settings {
    pub name: String,
    pub ipmi_proxy: String,
    pub network_agent_type: String,
    pub network_agent_connection: String,
}

/// Mathematical value of [`Settings`].
pub struct SettingsView {
    pub name: Seq<char>,
    pub ipmi_proxy: Seq<char>,
    pub network_agent_type: Seq<char>,
    pub network_agent_connection: Seq<char>,
}

impl View for Settings {
    type V = SettingsView;

    open spec fn view(&self) -> SettingsView {
        SettingsView {
            name: self.name@,
            ipmi_proxy: self.ipmi_proxy@,
            network_agent_type: self.network_agent_type@,
            network_agent_connection: self.network_agent_connection@,
        }
    }
}

/// `text`, or `default` where there is none.
pub open spec fn or_default(text: Option<Seq<char>>, default: Seq<char>) -> Seq<char> {
    match text {
        Some(t) => t,
        None => default,
    }
}

/// `text` with the master's ip in the place of the variable `$MASTER_IP`.
pub open spec fn with_master_ip(text: Seq<char>, master_ip: Seq<char>) -> Seq<char> {
    replaced(text, "$MASTER_IP"@, master_ip)
}

/// The settings that the configured values give: the name defaults to
/// `torc-controller`, everything else to `undefined`, and the variable
/// `$MASTER_IP` in the agent's connection stands for the master's ip.
pub open spec fn settings_of(
    name: Option<Seq<char>>,
    ipmi_proxy: Option<Seq<char>>,
    network_agent_type: Option<Seq<char>>,
    network_agent_connection: Option<Seq<char>>,
    master_ip: Seq<char>,
) -> SettingsView {
    SettingsView {
        name: or_default(name, "torc-controller"@),
        ipmi_proxy: or_default(ipmi_proxy, "undefined"@),
        network_agent_type: or_default(network_agent_type, "undefined"@),
        network_agent_connection: with_master_ip(
            or_default(network_agent_connection, "undefined"@),
            master_ip,
        ),
    }
}

/// `text`, or `default` where there is none.
pub fn text_or(text: Option<String>, default: &str) -> (r: String)
    ensures
        r@ == or_default(text_view(text), default@),
{
    match text {
        Some(t) => t,
        None => String::from_str(default),
    }
}

/// A node as the configuration describes it.
#[derive(Clone, Debug)]
pub struct NodeConfig {
    pub name: String,
    pub ip: String,
    pub external_ip: String,
    pub management_ip: String,
    pub port: i64,
    pub node_type: String,
}

/// Mathematical value of a [`NodeConfig`].
pub struct NodeConfigView {
    pub name: Seq<char>,
    pub ip: Seq<char>,
    pub external_ip: Seq<char>,
    pub management_ip: Seq<char>,
    pub port: i64,
    pub node_type: Seq<char>,
}

impl View for NodeConfig {
    type V = NodeConfigView;

    open spec fn view(&self) -> NodeConfigView {
        NodeConfigView {
            name: self.name@,
            ip: self.ip@,
            external_ip: self.external_ip@,
            management_ip: self.management_ip@,
            port: self.port,
            node_type: self.node_type@,
        }
    }
}

/// The node that the configured values give: a text that is left out is
/// empty, the port defaults to 0, and the variable `$MASTER_IP` in the
/// two ips stands for the master's ip.
pub open spec fn node_config_of(
    name: Option<Seq<char>>,
    ip: Option<Seq<char>>,
    external_ip: Option<Seq<char>>,
    management_ip: Option<Seq<char>>,
    port: Option<i64>,
    node_type: Option<Seq<char>>,
    master_ip: Seq<char>,
) -> NodeConfigView {
    NodeConfigView {
        name: or_default(name, Seq::empty()),
        ip: with_master_ip(or_default(ip, Seq::empty()), master_ip),
        external_ip: with_master_ip(or_default(external_ip, Seq::empty()), master_ip),
        management_ip: or_default(management_ip, Seq::empty()),
        port: match port {
            Some(p) => p,
            None => 0,
        },
        node_type: or_default(node_type, Seq::empty()),
    }
}

/// The values of a sequence of configured nodes, in order.
pub open spec fn configs_view(nodes: Seq<NodeConfig>) -> Seq<NodeConfigView> {
    Seq::new(nodes.len(), |i: int| nodes[i]@)
}

/// The node that a YAML hash describes.
pub open spec fn node_config_in(node: yaml_rust::Yaml, master_ip: Seq<char>) -> NodeConfigView {
    node_config_of(
        text_under(node, seq!["name"@]),
        text_under(node, seq!["ip"@]),
        text_under(node, seq!["external_ip"@]),
        text_under(node, seq!["management_ip"@]),
        int_under(node, seq!["port"@]),
        text_under(node, seq!["type"@]),
        master_ip,
    )
}

impl NodeConfig {
    /// The node that the configured values give.
    pub fn from_parts(
        name: Option<String>,
        ip: Option<String>,
        external_ip: Option<String>,
        management_ip: Option<String>,
        port: Option<i64>,
        node_type: Option<String>,
        master_ip: &String,
    ) -> (r: NodeConfig)
        ensures
            r@ == node_config_of(
                text_view(name),
                text_view(ip),
                text_view(external_ip),
                text_view(management_ip),
                port,
                text_view(node_type),
                master_ip@,
            ),
    {
        proof {
            reveal_strlit("");
            assert(""@ =~= Seq::<char>::empty());
        }
        let ip = text_or(ip, "");
        let external_ip = text_or(external_ip, "");
        NodeConfig {
            name: text_or(name, ""),
            ip: replace(ip.as_str(), "$MASTER_IP", master_ip.as_str()),
            external_ip: replace(external_ip.as_str(), "$MASTER_IP", master_ip.as_str()),
            management_ip: text_or(management_ip, ""),
            port: match port {
                Some(p) => p,
                None => 0,
            },
            node_type: text_or(node_type, ""),
        }
    }

    /// The node that a YAML hash describes under the keys `name`, `ip`,
    /// `external_ip`, `management_ip`, `port` and `type`.
    pub fn from_yaml(node: &yaml_rust::Yaml, master_ip: &String) -> (r: NodeConfig)
        ensures
            r@ == node_config_in(*node, master_ip@),
    {
        NodeConfig::from_parts(
            text_at(node, "name"),
            text_at(node, "ip"),
            text_at(node, "external_ip"),
            text_at(node, "management_ip"),
            int_at(node, "port"),
            text_at(node, "type"),
            master_ip,
        )
    }
}

impl Settings {
    /// The settings that the configured values give.
    pub fn from_parts(
        name: Option<String>,
        ipmi_proxy: Option<String>,
        network_agent_type: Option<String>,
        network_agent_connection: Option<String>,
        master_ip: &String,
    ) -> (r: Settings)
        ensures
            r@ == settings_of(
                text_view(name),
                text_view(ipmi_proxy),
                text_view(network_agent_type),
                text_view(network_agent_connection),
                master_ip@,
            ),
    {
        let connection = text_or(network_agent_connection, "undefined");
        Settings {
            name: text_or(name, "torc-controller"),
            ipmi_proxy: text_or(ipmi_proxy, "undefined"),
            network_agent_type: text_or(network_agent_type, "undefined"),
            network_agent_connection: replace(
                connection.as_str(),
                "$MASTER_IP",
                master_ip.as_str(),
            ),
        }
    }

    /// The settings that a YAML document gives under the keys `name`,
    /// `ipmiproxy`, and `type` and `connection` of `network-agent`.
    pub fn from_yaml(config: &yaml_rust::Yaml, master_ip: &String) -> (r: Settings)
        ensures
            r@ == settings_of(
                text_under(*config, seq!["name"@]),
                text_under(*config, seq!["ipmiproxy"@]),
                text_under(*config, seq!["network-agent"@, "type"@]),
                text_under(*config, seq!["network-agent"@, "connection"@]),
                master_ip@,
            ),
    {
        Settings::from_parts(
            text_at(config, "name"),
            text_at(config, "ipmiproxy"),
            text_in(config, "network-agent", "type"),
            text_in(config, "network-agent", "connection"),
            master_ip,
        )
    }
}

/// The periods of the two ticks, in seconds.
#[derive(Clone, Copy, PartialEq, Eq, Structural, Debug)]
pub struct Timing {
    pub sync_poll_interval: i64,
    pub clean_poll_interval: i64,
    pub clean_timeout: i64,
    pub restart_delay: i64,
}

/// The timing that the configured values give. All four are needed.
pub open spec fn timing_of(
    sync_poll_interval: Option<i64>,
    clean_poll_interval: Option<i64>,
    clean_timeout: Option<i64>,
    restart_delay: Option<i64>,
) -> Option<Timing> {
    if sync_poll_interval.is_some() && clean_poll_interval.is_some() && clean_timeout.is_some()
        && restart_delay.is_some() {
        Some(
            Timing {
                sync_poll_interval: sync_poll_interval->0,
                clean_poll_interval: clean_poll_interval->0,
                clean_timeout: clean_timeout->0,
                restart_delay: restart_delay->0,
            },
        )
    } else {
        None
    }
}

impl Timing {
    /// The timing that the configured values give. All four are needed.
    pub fn from_parts(
        sync_poll_interval: Option<i64>,
        clean_poll_interval: Option<i64>,
        clean_timeout: Option<i64>,
        restart_delay: Option<i64>,
    ) -> (r: Option<Timing>)
        ensures
            r == timing_of(sync_poll_interval, clean_poll_interval, clean_timeout, restart_delay),
    {
        match (sync_poll_interval, clean_poll_interval, clean_timeout, restart_delay) {
            (Some(sync), Some(clean), Some(timeout), Some(delay)) => Some(
                Timing {
                    sync_poll_interval: sync,
                    clean_poll_interval: clean,
                    clean_timeout: timeout,
                    restart_delay: delay,
                },
            ),
            _ => None,
        }
    }

    /// The timing that a YAML document gives under
    /// `poll_interval_in_seconds` of `statesync`, and
    /// `poll_interval_in_seconds`, `timeout_in_seconds` and
    /// `restart_delay_in_seconds` of `stateclean`. `None` where one of
    /// them is no integer.
    pub fn from_yaml(config: &yaml_rust::Yaml) -> (r: Option<Timing>)
        ensures
            r == timing_of(
                int_under(*config, seq!["statesync"@, "poll_interval_in_seconds"@]),
                int_under(*config, seq!["stateclean"@, "poll_interval_in_seconds"@]),
                int_under(*config, seq!["stateclean"@, "timeout_in_seconds"@]),
                int_under(*config, seq!["stateclean"@, "restart_delay_in_seconds"@]),
            ),
    {
        Timing::from_parts(
            int_in(config, "statesync", "poll_interval_in_seconds"),
            int_in(config, "stateclean", "poll_interval_in_seconds"),
            int_in(config, "stateclean", "timeout_in_seconds"),
            int_in(config, "stateclean", "restart_delay_in_seconds"),
        )
    }
}

/// The nodes that the items of a list describe, one for each item and in
/// the same order.
pub open spec fn node_configs_in(items: Seq<yaml_rust::Yaml>, master_ip: Seq<char>) -> Seq<
    NodeConfigView,
> {
    Seq::new(items.len(), |i: int| node_config_in(items[i], master_ip))
}

/// The nodes that a configuration lists under `nodes`; none where it
/// holds no such list.
pub open spec fn configured_nodes(config: yaml_rust::Yaml, master_ip: Seq<char>) -> Option<
    Seq<NodeConfigView>,
> {
    if yaml_items(config).contains_key(seq!["nodes"@]) {
        Some(node_configs_in(yaml_items(config)[seq!["nodes"@]], master_ip))
    } else {
        None
    }
}

/// The nodes that the items of a list describe, in order.
pub fn nodes_from(items: &Vec<yaml_rust::Yaml>, master_ip: &String) -> (r: Vec<NodeConfig>)
    ensures
        configs_view(r@) == node_configs_in(items@, master_ip@),
{
    let mut nodes: Vec<NodeConfig> = Vec::new();
    let mut i: usize = 0;
    while i < items.len()
        invariant
            i <= items@.len(),
            nodes@.len() == i,
            forall|j: int|
                0 <= j < i ==> (#[trigger] nodes@[j])@ == node_config_in(items@[j], master_ip@),
        decreases items@.len() - i,
    {
        nodes.push(NodeConfig::from_yaml(&items[i], master_ip));
        i += 1;
    }
    assert(configs_view(nodes@) =~= node_configs_in(items@, master_ip@));
    nodes
}

/// The nodes that a YAML document lists under `nodes`, in order: one for
/// each item of the list. `None` where it holds no such list.
pub fn read_nodes(config: &yaml_rust::Yaml, master_ip: &String) -> (r: Option<Vec<NodeConfig>>)
    ensures
        r.is_some() == configured_nodes(*config, master_ip@).is_some(),
        r matches Some(nodes) ==> Some(configs_view(nodes@)) == configured_nodes(
            *config,
            master_ip@,
        ),
{
    match items_at(config, "nodes") {
        Some(items) => Some(nodes_from(&items, master_ip)),
        None => None,
    }
}

} // verus!
