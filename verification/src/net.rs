//! Phidget network API: the servers that offer devices across a network.

use crate::callback::{settle_unowned, Settlement};
use crate::errors::ReturnCode;
use crate::handle::Context;
use crate::native::{NativeCall, TextCall};
use crate::text::{has_nul, strict_text};
use vstd::prelude::*;
use vstd::utf8::{decode_utf8, valid_utf8};

verus! {

/// Phidget server types
#[derive(Debug, Clone, Copy, PartialEq, Eq, PartialOrd, Ord, Hash, Structural)]
#[allow(missing_docs)]
pub enum ServerType {
    Nothing,
    DeviceListener,
    Device,
    DeviceRemote,
    WwwListener,
    Www,
    WwwRemote,
    Sbc,
}

impl ServerType {
    /// The native integer that stands for this type.
    pub open spec fn spec_code(self) -> u32 {
        match self {
            ServerType::Nothing => 0,
            ServerType::DeviceListener => 1,
            ServerType::Device => 2,
            ServerType::DeviceRemote => 3,
            ServerType::WwwListener => 4,
            ServerType::Www => 5,
            ServerType::WwwRemote => 6,
            ServerType::Sbc => 7,
        }
    }

    /// Whether some type stands for `val`.
    pub open spec fn is_code(val: u32) -> bool {
        exists|c: ServerType| c.spec_code() == val
    }

    /// The type that a native integer names, or `InvalidArg` for an integer
    /// that names none.
    pub open spec fn of_code(val: u32) -> Result<ServerType, ReturnCode> {
        if Self::is_code(val) {
            Ok(choose|c: ServerType| c.spec_code() == val)
        } else {
            Err(ReturnCode::InvalidArg)
        }
    }

    /// The native integer that stands for this type.
    #[verifier::when_used_as_spec(spec_code)]
    pub fn code(self) -> (c: u32)
        ensures
            c == self.spec_code(),
    {
        match self {
            ServerType::Nothing => 0,
            ServerType::DeviceListener => 1,
            ServerType::Device => 2,
            ServerType::DeviceRemote => 3,
            ServerType::WwwListener => 4,
            ServerType::Www => 5,
            ServerType::WwwRemote => 6,
            ServerType::Sbc => 7,
        }
    }

    /// Converts a native integer into a type; an integer that names none
    /// is rejected with `InvalidArg`.
    pub fn try_from(val: u32) -> (r: Result<ServerType, ReturnCode>)
        ensures
            r == Self::of_code(val),
            r matches Ok(c) ==> c.spec_code() == val,
            r is Err <==> !Self::is_code(val),
    {
        let r = match val {
            0 => Ok(ServerType::Nothing),
            1 => Ok(ServerType::DeviceListener),
            2 => Ok(ServerType::Device),
            3 => Ok(ServerType::DeviceRemote),
            4 => Ok(ServerType::WwwListener),
            5 => Ok(ServerType::Www),
            6 => Ok(ServerType::WwwRemote),
            7 => Ok(ServerType::Sbc),
            _ => Err(ReturnCode::InvalidArg),
        };
        proof {
            if let Ok(c) = r {
                assert(c.spec_code() == val);
                Self::lemma_code_injective(c, Self::of_code(val)->Ok_0);
            }
        }
        r
    }

    /// Reads a reply that carries a type: the failure that `code` names, or
    /// else the type that `raw` names.
    pub fn from_reply(code: u32, raw: u32) -> (r: Result<ServerType, ReturnCode>)
        ensures
            r == (match ReturnCode::spec_result(code) {
                Err(e) => Err::<ServerType, ReturnCode>(e),
                Ok(_) => Self::of_code(raw),
            }),
    {
        match ReturnCode::result(code) {
            Err(e) => Err(e),
            Ok(_) => Self::try_from(raw),
        }
    }

    /// No two types share a native integer.
    pub proof fn lemma_code_injective(a: ServerType, b: ServerType)
        requires
            a.spec_code() == b.spec_code(),
        ensures
            a == b,
    {
    }

    /// The native integer of a type converts back into that type.
    pub proof fn lemma_code_round_trip(c: ServerType)
        ensures
            Self::of_code(c.spec_code()) == Ok::<_, ReturnCode>(c),
    {
        assert(Self::is_code(c.spec_code()));
        Self::lemma_code_injective(Self::of_code(c.spec_code())->Ok_0, c);
    }
}

impl Default for ServerType {
    /// No server type.
    fn default() -> (t: ServerType)
        ensures
            t == ServerType::Nothing,
    {
        ServerType::Nothing
    }
}

/// Information about a phidget server
#[derive(Debug, Clone)]
pub struct Server {
    /// The server name
    pub name: String,
    /// The server type
    pub typ: ServerType,
    /// Flags
    pub flags: u32,
    /// The network address
    pub addr: String,
    /// The host name
    pub host: String,
    /// The port
    pub port: u16,
}

/// The record of a server as the native library passes it: each text as the
/// bytes that it points to, if it points to any, and each number as it
/// stands.
#[derive(Debug, Clone)]
pub struct NativeServer {
    /// The bytes of the server name
    pub name: Option<Vec<u8>>,
    /// The server type, as its native integer
    pub server_type: u32,
    /// Flags
    pub flags: i32,
    /// The bytes of the network address
    pub addr: Option<Vec<u8>>,
    /// The bytes of the host name
    pub host: Option<Vec<u8>>,
    /// The port
    pub port: i32,
}

/// The text that native bytes stand for when read strictly: the empty text
/// for no bytes, and `Invalid` for bytes that are not well-formed UTF-8.
pub open spec fn strict(text: Option<Vec<u8>>) -> Result<Seq<char>, ReturnCode> {
    match text {
        None => Ok(Seq::<char>::empty()),
        Some(bytes) => if valid_utf8(bytes@) {
            Ok(decode_utf8(bytes@))
        } else {
            Err(ReturnCode::Invalid)
        },
    }
}

fn read(text: &Option<Vec<u8>>) -> (r: Result<String, ReturnCode>)
    ensures
        match strict(*text) {
            Ok(t) => r is Ok && r->Ok_0@ == t,
            Err(e) => r == Err::<String, ReturnCode>(e),
        },
{
    match text {
        Some(bytes) => strict_text(Some(bytes.as_slice())),
        None => strict_text(None),
    }
}

impl Default for Server {
    /// The server of which nothing is known.
    fn default() -> (s: Server)
        ensures
            s.is_blank(),
    {
        Server {
            name: String::new(),
            typ: ServerType::Nothing,
            flags: 0,
            addr: String::new(),
            host: String::new(),
            port: 0,
        }
    }
}

impl Server {
    /// Whether nothing is known of the server.
    pub open spec fn is_blank(&self) -> bool {
        &&& self.name@ == Seq::<char>::empty()
        &&& self.typ == ServerType::Nothing
        &&& self.flags == 0
        &&& self.addr@ == Seq::<char>::empty()
        &&& self.host@ == Seq::<char>::empty()
        &&& self.port == 0
    }

    /// Whether this server says what the native record says.
    pub open spec fn matches_native(&self, srvr: NativeServer) -> bool {
        &&& strict(srvr.name) == Ok::<Seq<char>, ReturnCode>(self.name@)
        &&& ServerType::of_code(srvr.server_type) == Ok::<ServerType, ReturnCode>(self.typ)
        &&& self.flags == srvr.flags as u32
        &&& strict(srvr.addr) == Ok::<Seq<char>, ReturnCode>(self.addr@)
        &&& strict(srvr.host) == Ok::<Seq<char>, ReturnCode>(self.host@)
        &&& self.port == srvr.port as u16
    }

    /// The failure of reading a native record, if it cannot be read: the
    /// first of an ill-formed name (`Invalid`), an unknown type
    /// (`InvalidArg`), an ill-formed address and an ill-formed host name
    /// (`Invalid`).
    pub open spec fn native_failure(srvr: NativeServer) -> Option<ReturnCode> {
        if strict(srvr.name) is Err {
            Some(ReturnCode::Invalid)
        } else if ServerType::of_code(srvr.server_type) is Err {
            Some(ReturnCode::InvalidArg)
        } else if strict(srvr.addr) is Err {
            Some(ReturnCode::Invalid)
        } else if strict(srvr.host) is Err {
            Some(ReturnCode::Invalid)
        } else {
            None
        }
    }

    /// Reads the record of a server. The texts are read strictly; the flags
    /// and the port keep their low 32 and 16 bits.
    pub fn try_from(srvr: &NativeServer) -> (r: Result<Server, ReturnCode>)
        ensures
            match Self::native_failure(*srvr) {
                Some(e) => r == Err::<Server, ReturnCode>(e),
                None => r is Ok && r->Ok_0.matches_native(*srvr),
            },
    {
        let name = match read(&srvr.name) {
            Ok(t) => t,
            Err(e) => {
                return Err(e);
            },
        };
        let typ = match ServerType::try_from(srvr.server_type) {
            Ok(t) => t,
            Err(e) => {
                return Err(e);
            },
        };
        let flags = #[verifier::truncate]
        (srvr.flags as u32);
        let addr = match read(&srvr.addr) {
            Ok(t) => t,
            Err(e) => {
                return Err(e);
            },
        };
        let host = match read(&srvr.host) {
            Ok(t) => t,
            Err(e) => {
                return Err(e);
            },
        };
        let port = #[verifier::truncate]
        (srvr.port as u16);
        Ok(Server { name, typ, flags, addr, host, port })
    }

    /// The server that a server event speaks of: what the native record says,
    /// or the server of which nothing is known where there is no record or it
    /// cannot be read.
    pub fn from_event(srvr: Option<&NativeServer>) -> (s: Server)
        ensures
            match srvr {
                Some(record) => if Self::native_failure(*record) is None {
                    s.matches_native(*record)
                } else {
                    s.is_blank()
                },
                None => s.is_blank(),
            },
    {
        match srvr {
            Some(record) => match Server::try_from(record) {
                Ok(s) => s,
                Err(_) => Server::default(),
            },
            None => Server::default(),
        }
    }
}

/// The call that registers a server to which the client will try to connect,
/// with its texts: the name, the address and the password.
///
/// This should be called when server discovery is not enabled or the server
/// is not discoverable. None of the texts may hold the NUL character.
pub fn add_server(server_name: &str, address: &str, port: i32, password: &str) -> (r: TextCall)
    requires
        !has_nul(server_name@),
        !has_nul(address@),
        !has_nul(password@),
    ensures
        r.says(NativeCall::AddServer { port }, seq![server_name@, address@, password@]),
{
    let mut texts: Vec<String> = Vec::new();
    texts.push(server_name.to_owned());
    texts.push(address.to_owned());
    texts.push(password.to_owned());
    TextCall { call: NativeCall::AddServer { port }, texts }
}

// A call that goes with the name of a server as its one text.
fn named(call: NativeCall, server_name: &str) -> (r: TextCall)
    ensures
        r.says(call, seq![server_name@]),
{
    let mut texts: Vec<String> = Vec::new();
    texts.push(server_name.to_owned());
    TextCall { call, texts }
}

/// The call that removes the registration for a server, with the name as its
/// text. If the client is connected to this server, the connection will be
/// closed. The name may not hold the NUL character.
pub fn remove_server(server_name: &str) -> (r: TextCall)
    requires
        !has_nul(server_name@),
    ensures
        r.says(NativeCall::RemoveServer, seq![server_name@]),
{
    named(NativeCall::RemoveServer, server_name)
}

/// The call that removes all registered servers.
pub fn remove_all_servers() -> (call: NativeCall)
    ensures
        call == NativeCall::RemoveAllServers,
{
    NativeCall::RemoveAllServers
}

/// The call that enables attempts to connect to a discovered server, if
/// attempts were disabled before, with the name as its text. The name may not
/// hold the NUL character.
pub fn enable_server(server_name: &str) -> (r: TextCall)
    requires
        !has_nul(server_name@),
    ensures
        r.says(NativeCall::EnableServer, seq![server_name@]),
{
    named(NativeCall::EnableServer, server_name)
}

/// The call that prevents attempts to automatically connect to a server, with
/// the name as its text. The name may not hold the NUL character.
pub fn disable_server(server_name: &str) -> (r: TextCall)
    requires
        !has_nul(server_name@),
    ensures
        r.says(NativeCall::DisableServer, seq![server_name@]),
{
    named(NativeCall::DisableServer, server_name)
}

/// The call that sets the password that will be used to attempt to connect to
/// the server, with its texts: the name and the password. Neither text may
/// hold the NUL character.
pub fn set_server_passward(server_name: &str, password: &str) -> (r: TextCall)
    requires
        !has_nul(server_name@),
        !has_nul(password@),
    ensures
        r.says(NativeCall::SetServerPassword, seq![server_name@, password@]),
{
    let mut texts: Vec<String> = Vec::new();
    texts.push(server_name.to_owned());
    texts.push(password.to_owned());
    TextCall { call: NativeCall::SetServerPassword, texts }
}

/// The call that enables the dynamic discovery of servers that publish their
/// identity to the network.
pub fn enable_server_discovery(server_type: ServerType) -> (call: NativeCall)
    ensures
        call == (NativeCall::EnableServerDiscovery { server_type: server_type.spec_code() }),
{
    NativeCall::EnableServerDiscovery { server_type: server_type.code() }
}

/// The call that disables the dynamic discovery of servers that publish their
/// identity. This does not disconnect already established connections.
pub fn disable_server_discovery(server_type: ServerType) -> (call: NativeCall)
    ensures
        call == (NativeCall::DisableServerDiscovery { server_type: server_type.spec_code() }),
{
    NativeCall::DisableServerDiscovery { server_type: server_type.code() }
}

/// The call that assigns the handler to be called when a server appears.
pub fn set_on_server_added_handler(context: Context) -> (call: NativeCall)
    ensures
        call == (NativeCall::SetOnServerAddedHandler { context }),
{
    NativeCall::SetOnServerAddedHandler { context }
}

/// The call that assigns the handler to be called when a server disappears.
pub fn set_on_server_removed_handler(context: Context) -> (call: NativeCall)
    ensures
        call == (NativeCall::SetOnServerRemovedHandler { context }),
{
    NativeCall::SetOnServerRemovedHandler { context }
}

/// Settles the registration of a server handler that the native library has
/// answered with `code`. No wrapper owns a server handler: on success its box
/// lives on for as long as the library is loaded, and on failure it is to be
/// released.
pub fn settle_server_handler(context: Context, code: u32) -> (s: Settlement)
    ensures
        s.result == ReturnCode::spec_result(code),
        s.release == (if code == 0 {
            None
        } else {
            Some(context)
        }),
{
    settle_unowned(context, code)
}

} // verus!
