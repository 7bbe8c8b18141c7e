//! What the service is set up with: its name on the bus, the object path
//! that goes with it, and a player in its first state.

use vstd::prelude::*;
use vstd::string::StringExecFns;

use crate::player::{Player, PlayerView};
use crate::text::{append_replaced, replaced};

verus! {

/// The object path that belongs to a bus name: a slash, and the name with
/// its dots turned into slashes.
pub open spec fn object_path(addr: Seq<char>) -> Seq<char> {
    seq!['/'] + replaced(addr, '.', '/')
}

/// Makes the object path for the bus name `addr`.
pub fn path_from_addr(addr: &String) -> (path: String)
    ensures
        path@ == object_path(addr@),
{
    let mut path = String::from_str("/");
    proof {
        reveal_strlit("/");
        assert(path@ =~= seq!['/']);
    }
    append_replaced(&mut path, addr.as_str(), '.', '/');
    path
}

/// The service's settings together with its player.
pub struct Server {
    dbus_addr: String,
    dbus_interf: String,
    app_name: String,
    player: Player,
}

impl Server {
    /// The name the service takes on the bus.
    pub closed spec fn address(&self) -> Seq<char> {
        self.dbus_addr@
    }

    /// The object path the player is served at.
    pub closed spec fn interface(&self) -> Seq<char> {
        self.dbus_interf@
    }

    /// The application's name.
    pub closed spec fn name(&self) -> Seq<char> {
        self.app_name@
    }

    /// The player.
    pub closed spec fn controller(&self) -> PlayerView {
        self.player@
    }

    pub fn dbus_addr(&self) -> (addr: &str)
        ensures
            addr@ == self.address(),
    {
        self.dbus_addr.as_str()
    }

    pub fn dbus_interf(&self) -> (path: &str)
        ensures
            path@ == self.interface(),
    {
        self.dbus_interf.as_str()
    }

    pub fn app_name(&self) -> (name: &str)
        ensures
            name@ == self.name(),
    {
        self.app_name.as_str()
    }

    pub fn player(&self) -> (player: &Player)
        ensures
            player@ == self.controller(),
    {
        &self.player
    }

    /// Gives the player up to whoever is going to serve it.
    pub fn into_player(self) -> (player: Player)
        ensures
            player@ == self.controller(),
    {
        self.player
    }

    /// A service under the bus name `dbus_addr`, served at the object path
    /// that belongs to the name.
    pub fn new(dbus_addr: String) -> (server: Server)
        ensures
            server.address() == dbus_addr@,
            server.interface() == object_path(dbus_addr@),
            server.name() == "mplayer"@,
            server.controller() == PlayerView::fresh(),
    {
        Server {
            dbus_interf: path_from_addr(&dbus_addr),
            dbus_addr,
            app_name: String::from_str("mplayer"),
            player: Player::new(),
        }
    }

    /// The service under its usual name, `org.zbus.mplayer`.
    pub fn default() -> (server: Server)
        ensures
            server.address() == "org.zbus.mplayer"@,
            server.interface() == "/org/zbus/mplayer"@,
            server.interface() == object_path(server.address()),
            server.name() == "mplayer"@,
            server.controller() == PlayerView::fresh(),
    {
        proof {
            reveal_strlit("org.zbus.mplayer");
            reveal_strlit("/org/zbus/mplayer");
            assert("/org/zbus/mplayer"@ =~= object_path("org.zbus.mplayer"@));
        }
        Server {
            dbus_addr: String::from_str("org.zbus.mplayer"),
            dbus_interf: String::from_str("/org/zbus/mplayer"),
            app_name: String::from_str("mplayer"),
            player: Player::new(),
        }
    }
}

} // verus!
