//! Listener settings: a 4-component numeric address and a port, combinable
//! downstream into one bindable socket address.

use vstd::prelude::*;

use crate::error::{ConfigError, ConfigField};
use crate::value::{DocValue, get_int, lookup_spec, spec_get_int, resolves_to};

verus! {

/// Mathematical model of a resolved [`ServerConfig`].
pub ghost struct ServerConfigV {
    pub address: Seq<u8>,
    pub port: u16,
}

/// Listen address and port.
#[derive(Debug, Clone, PartialEq)]
pub struct ServerConfig {
    pub address: [u8; 4],
    pub port: u16,
}

impl View for ServerConfig {
    type V = ServerConfigV;

    open spec fn view(&self) -> ServerConfigV {
        ServerConfigV { address: self.address@, port: self.port }
    }
}

/// The all-defaults value: listen on all interfaces, port 8000.
pub open spec fn spec_default_server() -> ServerConfigV {
    ServerConfigV { address: seq![0u8, 0u8, 0u8, 0u8], port: 8000u16 }
}

/// The integer of a value, where it is an integer.
pub open spec fn int_of(v: DocValue) -> i64 {
    match v {
        DocValue::Int(n) => n,
        _ => 0,
    }
}

/// A list of exactly four integers, each one octet.
pub open spec fn spec_addr_items(items: Seq<DocValue>) -> Option<Seq<u8>> {
    if items.len() == 4 && (forall|i: int|
        0 <= i < 4 ==> items[i] is Int && 0 <= int_of(#[trigger] items[i]) <= 255) {
        Some(Seq::new(4, |i: int| int_of(items[i]) as u8))
    } else {
        None
    }
}

/// The address key: absent, present as a 4-octet array, or a type error.
pub open spec fn spec_get_addr(es: Seq<(String, DocValue)>, key: Seq<char>, f: ConfigField) -> Result<
    Option<Seq<u8>>,
    ConfigError,
> {
    match lookup_spec(es, key) {
        None => Ok(None),
        Some(v) => match v {
            DocValue::List(items) => match spec_addr_items(items@) {
                Some(a) => Ok(Some(a)),
                None => Err(ConfigError::WrongType(f)),
            },
            _ => Err(ConfigError::WrongType(f)),
        },
    }
}

/// Resolution of the section's entry list: `address` must be a 4-octet
/// integer array and `port` an integer that fits a port number; both have
/// defaults.
pub open spec fn spec_server_from(es: Seq<(String, DocValue)>) -> Result<ServerConfigV, ConfigError> {
    let ad = spec_get_addr(es, "address"@, ConfigField::ServerAddress);
    let pt = spec_get_int(es, "port"@, ConfigField::ServerPort);
    if ad is Err {
        Err(ad->Err_0)
    } else if pt is Err {
        Err(pt->Err_0)
    } else if pt->Ok_0 matches Some(n) && !(0 <= n <= 65535) {
        Err(ConfigError::WrongType(ConfigField::ServerPort))
    } else {
        Ok(ServerConfigV {
            address: match ad->Ok_0 {
                Some(a) => a,
                None => seq![0u8, 0u8, 0u8, 0u8],
            },
            port: match pt->Ok_0 {
                Some(n) => n as u16,
                None => 8000u16,
            },
        })
    }
}

/// Resolution of the section value: absent resolves to the all-defaults
/// value; a present non-table is a type error.
pub open spec fn spec_resolve_server(sv: Option<DocValue>) -> Result<ServerConfigV, ConfigError> {
    match sv {
        None => Ok(spec_default_server()),
        Some(v) => match v {
            DocValue::Table(es) => spec_server_from(es@),
            _ => Err(ConfigError::WrongType(ConfigField::ServerSection)),
        },
    }
}

impl Default for ServerConfig {
    /// The aggregate of every field-level default.
    fn default() -> (r: ServerConfig)
        ensures
            r@ == spec_default_server(),
    {
        let r = ServerConfig { address: ServerConfig::address_default(), port: ServerConfig::port_default() };
        proof {
            assert(r@.address =~= seq![0u8, 0u8, 0u8, 0u8]);
        }
        r
    }
}

impl ServerConfig {
    /// Default listen address: all interfaces.
    pub fn address_default() -> (r: [u8; 4])
        ensures
            r@ == seq![0u8, 0u8, 0u8, 0u8],
    {
        let r: [u8; 4] = [0u8, 0u8, 0u8, 0u8];
        proof {
            assert(r@ =~= seq![0u8, 0u8, 0u8, 0u8]);
        }
        r
    }

    /// Default listen port.
    pub fn port_default() -> (r: u16)
        ensures
            r == 8000u16,
    {
        8000
    }

    /// Resolves the section's entry list.
    pub fn from_entries(es: &Vec<(String, DocValue)>) -> (r: Result<ServerConfig, ConfigError>)
        ensures
            resolves_to(r, spec_server_from(es@)),
    {
        let ad = match Self::get_addr(es, "address", ConfigField::ServerAddress) {
            Ok(Some(a)) => a,
            Ok(None) => ServerConfig::address_default(),
            Err(e) => {
                return Err(e);
            },
        };
        let pt = match get_int(es, "port", ConfigField::ServerPort) {
            Ok(Some(n)) => {
                if n < 0 || n > 65535 {
                    return Err(ConfigError::WrongType(ConfigField::ServerPort));
                }
                n as u16
            },
            Ok(None) => ServerConfig::port_default(),
            Err(e) => {
                return Err(e);
            },
        };
        Ok(ServerConfig { address: ad, port: pt })
    }

    /// Serialized form of this value: an entry list that resolves back to
    /// this very value.
    pub fn to_entries(&self) -> (r: Vec<(String, DocValue)>)
        ensures
            spec_server_from(r@) == Ok::<ServerConfigV, ConfigError>(self@),
    {
        let mut items: Vec<DocValue> = Vec::new();
        items.push(DocValue::Int(self.address[0] as i64));
        items.push(DocValue::Int(self.address[1] as i64));
        items.push(DocValue::Int(self.address[2] as i64));
        items.push(DocValue::Int(self.address[3] as i64));
        proof {
            assert(spec_addr_items(items@) matches Some(a) && a =~= self.address@);
        }
        let mut es: Vec<(String, DocValue)> = Vec::new();
        crate::value::push_value(&mut es, "address", DocValue::List(items));
        crate::value::push_value(&mut es, "port", DocValue::Int(self.port as i64));
        proof {
            reveal_strlit("address");
            reveal_strlit("port");
            assert(("address")@.len() == 7);
            assert(("port")@.len() == 4);
        }
        es
    }

    /// Resolves the section value, absent or present.
    pub fn from_section(sv: Option<&DocValue>) -> (r: Result<ServerConfig, ConfigError>)
        ensures
            resolves_to(r, spec_resolve_server(crate::value::opt_value(sv))),
    {
        match sv {
            None => Ok(ServerConfig::default()),
            Some(v) => match v {
                DocValue::Table(es) => ServerConfig::from_entries(es),
                _ => Err(ConfigError::WrongType(ConfigField::ServerSection)),
            },
        }
    }

    fn addr_items(items: &Vec<DocValue>) -> (r: Option<[u8; 4]>)
        ensures
            match r {
                Some(a) => spec_addr_items(items@) matches Some(s) && a@ == s,
                None => spec_addr_items(items@) is None,
            },
    {
        if items.len() != 4 {
            return None;
        }
        let n0 = match &items[0] {
            DocValue::Int(n) => *n,
            _ => {
                return None;
            },
        };
        let n1 = match &items[1] {
            DocValue::Int(n) => *n,
            _ => {
                return None;
            },
        };
        let n2 = match &items[2] {
            DocValue::Int(n) => *n,
            _ => {
                return None;
            },
        };
        let n3 = match &items[3] {
            DocValue::Int(n) => *n,
            _ => {
                return None;
            },
        };
        if n0 < 0 || n0 > 255 || n1 < 0 || n1 > 255 || n2 < 0 || n2 > 255 || n3 < 0 || n3 > 255 {
            return None;
        }
        let a: [u8; 4] = [n0 as u8, n1 as u8, n2 as u8, n3 as u8];
        proof {
            assert(a@ =~= spec_addr_items(items@).unwrap());
        }
        Some(a)
    }

    fn get_addr(es: &Vec<(String, DocValue)>, key: &str, f: ConfigField) -> (r: Result<
        Option<[u8; 4]>,
        ConfigError,
    >)
        ensures
            match r {
                Ok(None) => spec_get_addr(es@, key@, f) == Result::<
                    Option<Seq<u8>>,
                    ConfigError,
                >::Ok(Option::<Seq<u8>>::None),
                Ok(Some(a)) => spec_get_addr(es@, key@, f) matches Ok(Some(s)) && a@ == s,
                Err(e) => spec_get_addr(es@, key@, f) matches Err(e2) && e == e2,
            },
    {
        match crate::value::lookup(es, key) {
            None => Ok(None),
            Some(v) => match v {
                DocValue::List(items) => match Self::addr_items(items) {
                    Some(a) => Ok(Some(a)),
                    None => Err(ConfigError::WrongType(f)),
                },
                _ => Err(ConfigError::WrongType(f)),
            },
        }
    }
}

} // verus!
