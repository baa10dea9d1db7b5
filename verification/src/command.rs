//! The request: which server software to set up, and with which choices.

use vstd::prelude::*;

verus! {

/// A request for one kind of server. An empty version, loader or installer
/// asks for the latest one.
#[derive(Debug, Clone, PartialEq, Eq)]
pub enum ServerCommand {
    Vanilla {
        /// The game version.
        version: String,
        /// Take the latest snapshot, not the latest release, as the latest version.
        snapshot: bool,
        /// The licence agreement is accepted.
        eula: bool,
    },
    Paper {
        /// The game version.
        version: String,
        /// The build number; absent asks for the latest build.
        build: Option<u32>,
        /// The licence agreement is accepted.
        eula: bool,
    },
    Fabric {
        /// The game version.
        version: String,
        /// The loader version.
        loader: String,
        /// The installer version.
        installer: String,
        /// Unstable loader versions may be used.
        unstable_loader: bool,
        /// Unstable installer versions may be used.
        unstable_installer: bool,
        /// The licence agreement is accepted.
        eula: bool,
    },
}

/// The content of a [`ServerCommand`].
pub enum ServerCommandView {
    Vanilla { version: Seq<char>, snapshot: bool, eula: bool },
    Paper { version: Seq<char>, build: Option<u32>, eula: bool },
    Fabric {
        version: Seq<char>,
        loader: Seq<char>,
        installer: Seq<char>,
        unstable_loader: bool,
        unstable_installer: bool,
        eula: bool,
    },
}

impl View for ServerCommand {
    type V = ServerCommandView;

    open spec fn view(&self) -> ServerCommandView {
        match self {
            ServerCommand::Vanilla { version, snapshot, eula } => ServerCommandView::Vanilla {
                version: version@,
                snapshot: *snapshot,
                eula: *eula,
            },
            ServerCommand::Paper { version, build, eula } => ServerCommandView::Paper {
                version: version@,
                build: *build,
                eula: *eula,
            },
            ServerCommand::Fabric {
                version,
                loader,
                installer,
                unstable_loader,
                unstable_installer,
                eula,
            } => ServerCommandView::Fabric {
                version: version@,
                loader: loader@,
                installer: installer@,
                unstable_loader: *unstable_loader,
                unstable_installer: *unstable_installer,
                eula: *eula,
            },
        }
    }
}

impl ServerCommandView {
    /// The name of the kind of server.
    pub open spec fn name(self) -> Seq<char> {
        match self {
            ServerCommandView::Vanilla { .. } => "Vanilla"@,
            ServerCommandView::Paper { .. } => "Paper"@,
            ServerCommandView::Fabric { .. } => "Fabric"@,
        }
    }

    /// Whether the licence agreement is accepted.
    pub open spec fn eula(self) -> bool {
        match self {
            ServerCommandView::Vanilla { eula, .. } => eula,
            ServerCommandView::Paper { eula, .. } => eula,
            ServerCommandView::Fabric { eula, .. } => eula,
        }
    }

    /// What is reported once the server of the request is set up, given the
    /// descriptor of the release that was resolved.
    pub open spec fn success_message(self, descriptor: Seq<char>) -> Seq<char> {
        "Successfully initialized "@ + self.name() + " "@ + descriptor + " server!"@
    }
}

impl ServerCommand {
    /// The name of the kind of server.
    pub fn to_string(&self) -> (r: String)
        ensures
            r@ == self@.name(),
    {
        match self {
            ServerCommand::Vanilla { .. } => "Vanilla".to_string(),
            ServerCommand::Paper { .. } => "Paper".to_string(),
            ServerCommand::Fabric { .. } => "Fabric".to_string(),
        }
    }

    /// What is reported once the server is set up: the kind of server and the
    /// descriptor of the release that was resolved.
    pub fn success_message(&self, descriptor: &str) -> (r: String)
        ensures
            r@ == self@.success_message(descriptor@),
    {
        let mut out = String::from_str("Successfully initialized ");
        let name = self.to_string();
        out.append(name.as_str());
        out.append(" ");
        out.append(descriptor);
        out.append(" server!");
        out
    }

    /// Whether the licence agreement is accepted.
    pub fn eula_accepted(&self) -> (r: bool)
        ensures
            r == self@.eula(),
    {
        match self {
            ServerCommand::Vanilla { eula, .. } => *eula,
            ServerCommand::Paper { eula, .. } => *eula,
            ServerCommand::Fabric { eula, .. } => *eula,
        }
    }
}

} // verus!
