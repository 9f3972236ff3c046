//! Static configuration: the listener endpoint, the shared digest secret, and
//! the ordered mapping from door names to controller endpoints.
//!
//! Reading and parsing the configuration file happens outside the library;
//! the plain values arrive here as `ConfigData`, and the fallible conversion
//! to `Config` (port defaults, one-based to zero-based output index) is
//! specified and proved.

use vstd::prelude::*;
use vstd::string::StringExecFns;

use crate::numfmt::dec_chars_of;
use crate::numfmt::push_decimal;

verus! {

/// The port an AGI listener uses when the configuration names none.
pub const DEFAULT_AGI_PORT: u16 = 4573;

/// The port a CMI controller listens on when the configuration names none.
pub const DEFAULT_CMI_PORT: u16 = 5442;

/// An IPv4 address as four octets.
#[derive(PartialEq, Eq, Structural, Clone, Copy, Debug)]
pub struct Ipv4Address {
    pub o0: u8,
    pub o1: u8,
    pub o2: u8,
    pub o3: u8,
}

impl Ipv4Address {
    pub fn new(o0: u8, o1: u8, o2: u8, o3: u8) -> (r: Self)
        ensures
            r == (Ipv4Address { o0, o1, o2, o3 }),
    {
        Ipv4Address { o0, o1, o2, o3 }
    }
}

/// The dotted-decimal spelling of an address.
pub open spec fn ipv4_chars(a: Ipv4Address) -> Seq<char> {
    dec_chars_of(a.o0 as nat) + seq!['.'] + dec_chars_of(a.o1 as nat) + seq!['.'] + dec_chars_of(
        a.o2 as nat,
    ) + seq!['.'] + dec_chars_of(a.o3 as nat)
}

/// The `address:port` spelling of an endpoint.
pub open spec fn host_chars(a: Ipv4Address, port: u16) -> Seq<char> {
    ipv4_chars(a) + seq![':'] + dec_chars_of(port as nat)
}

/// Render an endpoint as `address:port`.
pub fn host_string(a: &Ipv4Address, port: u16) -> (r: String)
    ensures
        r@ == host_chars(*a, port),
{
    proof {
        reveal_strlit(".");
        reveal_strlit(":");
    }
    let mut s = String::new();
    push_decimal(&mut s, a.o0 as u32);
    s.append(".");
    push_decimal(&mut s, a.o1 as u32);
    s.append(".");
    push_decimal(&mut s, a.o2 as u32);
    s.append(".");
    push_decimal(&mut s, a.o3 as u32);
    s.append(":");
    push_decimal(&mut s, port as u32);
    proof {
        assert("."@ =~= seq!['.']);
        assert(":"@ =~= seq![':']);
        assert(s@ =~= host_chars(*a, port));
    }
    s
}

/// A port value, or the given default where none was configured.
pub open spec fn port_or(p: Option<u16>, d: u16) -> u16 {
    match p {
        Some(x) => x,
        None => d,
    }
}

/// What the configuration file's listener section holds, as plain values.
#[derive(Debug)]
pub struct AgiConfigData {
    pub listen_address: Ipv4Address,
    pub listen_port: Option<u16>,
    pub digest_secret: String,
}

/// Settings for listening to AGI requests.
#[derive(Debug)]
pub struct AgiConfig {
    pub listen_address: Ipv4Address,
    pub listen_port: u16,
    pub digest_secret: String,
}

impl AgiConfig {
    /// Adopt the listener settings, defaulting the port.
    pub fn from_data(d: AgiConfigData) -> (r: Self)
        ensures
            r.listen_address == d.listen_address,
            r.listen_port == port_or(d.listen_port, DEFAULT_AGI_PORT),
            r.digest_secret == d.digest_secret,
    {
        AgiConfig {
            listen_address: d.listen_address,
            listen_port: match d.listen_port {
                Some(p) => p,
                None => DEFAULT_AGI_PORT,
            },
            digest_secret: d.digest_secret,
        }
    }
}

/// What the configuration file holds for one door, as plain values.
/// The `pdo` output index is one-based here, as it is on disk.
#[derive(Debug)]
pub struct DoorMappingData {
    pub door_name: String,
    pub cmi_address: Ipv4Address,
    pub cmi_port: Option<u16>,
    pub virtual_node: u8,
    pub pdo: u8,
}

/// Error: a one-based output index of zero in the configuration.
#[derive(PartialEq, Eq, Structural, Clone, Copy, Debug)]
pub struct PdoZeroError {}

/// Mapping a single door to a destination on the controller network.
/// The `pdo` output index is stored zero-based.
#[derive(Debug)]
pub struct DoorMapping {
    pub door_name: String,
    pub cmi_address: Ipv4Address,
    pub cmi_port: u16,
    pub virtual_node: u8,
    pub pdo: u8,
}

/// The mapping that a (valid) on-disk entry denotes: the port defaulted, the
/// one-based index shifted down to zero-based.
pub open spec fn mapping_of(d: DoorMappingData) -> DoorMapping
    recommends
        d.pdo >= 1,
{
    DoorMapping {
        door_name: d.door_name,
        cmi_address: d.cmi_address,
        cmi_port: port_or(d.cmi_port, DEFAULT_CMI_PORT),
        virtual_node: d.virtual_node,
        pdo: (d.pdo - 1) as u8,
    }
}

impl DoorMapping {
    /// Convert one on-disk entry. A zero `pdo` is rejected: the on-disk field
    /// is one-based. Otherwise the stored index is exactly `pdo - 1`.
    pub fn from_data(d: DoorMappingData) -> (r: Result<Self, PdoZeroError>)
        ensures
            r is Err <==> d.pdo == 0,
            d.pdo >= 1 ==> r == Result::<DoorMapping, PdoZeroError>::Ok(mapping_of(d)),
    {
        if d.pdo == 0 {
            Err(PdoZeroError {  })
        } else {
            Ok(
                DoorMapping {
                    door_name: d.door_name,
                    cmi_address: d.cmi_address,
                    cmi_port: match d.cmi_port {
                        Some(p) => p,
                        None => DEFAULT_CMI_PORT,
                    },
                    virtual_node: d.virtual_node,
                    pdo: d.pdo - 1,
                },
            )
        }
    }

    /// The `address:port` string of this mapping's controller.
    pub fn cmi_host(&self) -> (r: String)
        ensures
            r@ == host_chars(self.cmi_address, self.cmi_port),
    {
        host_string(&self.cmi_address, self.cmi_port)
    }
}

/// What the configuration file's controller section holds, as plain values.
#[derive(Debug)]
pub struct CmiConfigData {
    pub door_mappings: Vec<DoorMappingData>,
}

/// Mappings for all doors, in configuration order.
#[derive(Debug)]
pub struct CmiConfig {
    pub door_mappings: Vec<DoorMapping>,
}

/// The first mapping in `ms` whose name is `name`, if any.
pub open spec fn find_mapping(ms: Seq<DoorMapping>, name: Seq<char>) -> Option<DoorMapping>
    decreases ms.len(),
{
    if ms.len() == 0 {
        None
    } else if ms[0].door_name@ == name {
        Some(ms[0])
    } else {
        find_mapping(ms.drop_first(), name)
    }
}

/// A name resolves to nothing exactly when no entry carries it, and to the
/// first entry that does otherwise.
pub proof fn lemma_find_mapping(ms: Seq<DoorMapping>, name: Seq<char>)
    ensures
        find_mapping(ms, name) is None <==> (forall|i: int|
            0 <= i < ms.len() ==> (#[trigger] ms[i]).door_name@ != name),
        find_mapping(ms, name) matches Some(m) ==> exists|i: int|
            0 <= i < ms.len() && #[trigger] ms[i] == m && ms[i].door_name@ == name && (forall|
                j: int,
            |
                0 <= j < i ==> (#[trigger] ms[j]).door_name@ != name),
    decreases ms.len(),
{
    if ms.len() > 0 {
        let tail = ms.drop_first();
        lemma_find_mapping(tail, name);
        assert forall|i: int| 0 <= i < tail.len() implies #[trigger] tail[i] == ms[i + 1] by {}
        if ms[0].door_name@ != name {
            if (forall|i: int| 0 <= i < tail.len() ==> (#[trigger] tail[i]).door_name@ != name) {
                assert forall|i: int| 0 <= i < ms.len() implies (#[trigger] ms[i]).door_name@
                    != name by {
                    if i > 0 {
                        assert(tail[i - 1] == ms[i]);
                    }
                }
            }
            if (forall|i: int| 0 <= i < ms.len() ==> (#[trigger] ms[i]).door_name@ != name) {
                assert forall|i: int| 0 <= i < tail.len() implies (#[trigger] tail[i]).door_name@
                    != name by {
                    assert(tail[i] == ms[i + 1]);
                }
            }
            let fm = find_mapping(tail, name);
            if fm is Some {
                let m = fm->Some_0;
                let i = choose|i: int|
                    0 <= i < tail.len() && #[trigger] tail[i] == m && tail[i].door_name@ == name
                        && (forall|j: int| 0 <= j < i ==> (#[trigger] tail[j]).door_name@ != name);
                assert(ms[i + 1] == m && ms[i + 1].door_name@ == name);
                assert forall|j: int| 0 <= j < i + 1 implies (#[trigger] ms[j]).door_name@
                    != name by {
                    if j > 0 {
                        assert(tail[j - 1] == ms[j]);
                    }
                }
            }
        }
    }
}

/// The first match at index `i`: no earlier entry carries the name.
pub proof fn lemma_find_mapping_at(ms: Seq<DoorMapping>, name: Seq<char>, i: int)
    requires
        0 <= i < ms.len(),
        ms[i].door_name@ == name,
        forall|j: int| 0 <= j < i ==> (#[trigger] ms[j]).door_name@ != name,
    ensures
        find_mapping(ms, name) == Some(ms[i]),
    decreases i,
{
    if i > 0 {
        lemma_find_mapping_at(ms.drop_first(), name, i - 1);
    }
}

impl CmiConfig {
    /// Convert every on-disk entry, in order; fails exactly when some entry
    /// carries a zero one-based index.
    pub fn from_data(d: CmiConfigData) -> (r: Result<Self, PdoZeroError>)
        ensures
            r is Ok <==> (forall|i: int|
                0 <= i < d.door_mappings@.len() ==> (#[trigger] d.door_mappings@[i]).pdo >= 1),
            r matches Ok(c) ==> c.door_mappings@.len() == d.door_mappings@.len() && (forall|i: int|
                0 <= i < d.door_mappings@.len() ==> #[trigger] c.door_mappings@[i] == mapping_of(
                    d.door_mappings@[i],
                )),
    {
        let mut out: Vec<DoorMapping> = Vec::new();
        let n = d.door_mappings.len();
        let mut i: usize = 0;
        while i < n
            invariant
                i <= n,
                n == d.door_mappings@.len(),
                out@.len() == i as int,
                forall|j: int| 0 <= j < i ==> (#[trigger] d.door_mappings@[j]).pdo >= 1,
                forall|j: int|
                    0 <= j < i ==> #[trigger] out@[j] == mapping_of(d.door_mappings@[j]),
            decreases n - i,
        {
            let m = &d.door_mappings[i];
            if m.pdo == 0 {
                return Err(PdoZeroError {  });
            }
            out.push(
                DoorMapping {
                    door_name: m.door_name.clone(),
                    cmi_address: m.cmi_address,
                    cmi_port: match m.cmi_port {
                        Some(p) => p,
                        None => DEFAULT_CMI_PORT,
                    },
                    virtual_node: m.virtual_node,
                    pdo: m.pdo - 1,
                },
            );
            i = i + 1;
        }
        Ok(CmiConfig { door_mappings: out })
    }

    /// Resolve a door name to the first mapping that carries it, scanning the
    /// configured list in order; `None` when no entry matches. Matching is
    /// case-sensitive, on the exact name.
    pub fn get_cmi_for_door(&self, name: &str) -> (r: Option<&DoorMapping>)
        ensures
            match r {
                Some(m) => find_mapping(self.door_mappings@, name@) == Some(*m),
                None => find_mapping(self.door_mappings@, name@) is None,
            },
    {
        let wanted: String = name.to_owned();
        let n = self.door_mappings.len();
        let mut i: usize = 0;
        while i < n
            invariant
                i <= n,
                n == self.door_mappings@.len(),
                wanted@ == name@,
                forall|j: int|
                    0 <= j < i ==> (#[trigger] self.door_mappings@[j]).door_name@ != name@,
            decreases n - i,
        {
            if self.door_mappings[i].door_name == wanted {
                proof {
                    lemma_find_mapping_at(self.door_mappings@, name@, i as int);
                }
                return Some(&self.door_mappings[i]);
            }
            i = i + 1;
        }
        proof {
            lemma_find_mapping(self.door_mappings@, name@);
        }
        None
    }
}

/// What the whole configuration file holds, as plain values.
#[derive(Debug)]
pub struct ConfigData {
    pub agi: AgiConfigData,
    pub cmi: CmiConfigData,
}

/// Startup configuration errors. Reading or parsing the file happens outside
/// the library, which records those failures here as text.
#[derive(Debug)]
pub enum ConfigError {
    /// The configuration file could not be read.
    Io(String),
    /// The configuration file could not be parsed.
    Toml(String),
    /// A one-based output index in the file is zero.
    PdoZero,
}

/// The message reported for a startup error.
pub open spec fn config_error_chars(e: ConfigError) -> Seq<char> {
    match e {
        ConfigError::Io(x) => "Error reading from file /etc/ta-agi-doorbell/config.toml: "@ + x@,
        ConfigError::Toml(x) => "Error parsing config file as toml: "@ + x@,
        ConfigError::PdoZero => "One of the PDO indices is zero. They need to be one-based."@,
    }
}

impl ConfigError {
    /// Whether this is the zero-index error.
    pub fn is_pdo_zero(&self) -> (r: bool)
        ensures
            r <==> self is PdoZero,
    {
        match self {
            ConfigError::PdoZero => true,
            _ => false,
        }
    }

    /// The message reported once for this error before the process exits.
    pub fn message(&self) -> (r: String)
        ensures
            r@ == config_error_chars(*self),
    {
        match self {
            ConfigError::Io(x) => {
                let mut s = String::from_str(
                    "Error reading from file /etc/ta-agi-doorbell/config.toml: ",
                );
                s.append(x.as_str());
                s
            },
            ConfigError::Toml(x) => {
                let mut s = String::from_str("Error parsing config file as toml: ");
                s.append(x.as_str());
                s
            },
            ConfigError::PdoZero => String::from_str(
                "One of the PDO indices is zero. They need to be one-based.",
            ),
        }
    }
}

/// The entire configuration.
#[derive(Debug)]
pub struct Config {
    pub agi: AgiConfig,
    pub cmi: CmiConfig,
}

impl Config {
    /// Convert the file's plain values; fails exactly when some door entry
    /// carries a zero one-based index.
    pub fn from_data(d: ConfigData) -> (r: Result<Self, ConfigError>)
        ensures
            r is Ok <==> (forall|i: int|
                0 <= i < d.cmi.door_mappings@.len() ==> (#[trigger] d.cmi.door_mappings@[i]).pdo
                    >= 1),
            r matches Err(e) ==> e is PdoZero,
            r matches Ok(c) ==> {
                &&& c.agi.listen_address == d.agi.listen_address
                &&& c.agi.listen_port == port_or(d.agi.listen_port, DEFAULT_AGI_PORT)
                &&& c.agi.digest_secret == d.agi.digest_secret
                &&& c.cmi.door_mappings@.len() == d.cmi.door_mappings@.len()
                &&& forall|i: int|
                    0 <= i < d.cmi.door_mappings@.len() ==> #[trigger] c.cmi.door_mappings@[i]
                        == mapping_of(d.cmi.door_mappings@[i])
            },
    {
        let cmi = match CmiConfig::from_data(d.cmi) {
            Ok(c) => c,
            Err(_) => {
                return Err(ConfigError::PdoZero);
            },
        };
        Ok(Config { agi: AgiConfig::from_data(d.agi), cmi })
    }

    /// The `address:port` string the AGI listener binds to.
    pub fn agi_listen_string(&self) -> (r: String)
        ensures
            r@ == host_chars(self.agi.listen_address, self.agi.listen_port),
    {
        host_string(&self.agi.listen_address, self.agi.listen_port)
    }

    /// A copy of the shared digest secret.
    pub fn agi_digest_secret(&self) -> (r: String)
        ensures
            r == self.agi.digest_secret,
    {
        self.agi.digest_secret.clone()
    }
}

} // verus!
