//! Launching the daemon from the client: which program to run and with
//! which arguments. Detecting a running daemon and spawning the process are
//! left to the caller.

use vstd::prelude::*;

verus! {

/// The views of a sequence of strings.
pub open spec fn views(s: Seq<String>) -> Seq<Seq<char>> {
    s.map_values(|a: String| a@)
}

/// How the daemon is launched.
#[derive(Debug, Clone)]
pub struct InitService {
    executable: Option<String>,
    pid_file: String,
    daemon_name: String,
    config: Option<String>,
    verbosity: String,
}

impl InitService {
    /// The daemon's executable, if one was given.
    pub closed spec fn executable_view(self) -> Option<Seq<char>> {
        match self.executable {
            Some(e) => Some(e@),
            None => None,
        }
    }

    /// The daemon's process name.
    pub closed spec fn daemon_name_view(self) -> Seq<char> {
        self.daemon_name@
    }

    /// The daemon's PID file.
    pub closed spec fn pid_file_view(self) -> Seq<char> {
        self.pid_file@
    }

    /// The configuration file handed on to the daemon, if any.
    pub closed spec fn config_view(self) -> Option<Seq<char>> {
        match self.config {
            Some(c) => Some(c@),
            None => None,
        }
    }

    /// The log level handed on to the daemon.
    pub closed spec fn verbosity_view(self) -> Seq<char> {
        self.verbosity@
    }

    /// The arguments the daemon is launched with: the log level, the flag
    /// that makes it detach, and the configuration file where one is given.
    pub open spec fn launch_args(self) -> Seq<Seq<char>> {
        let base = seq![
            "--verbosity"@,
            self.verbosity_view(),
            "--daemonize"@,
        ];
        match self.config_view() {
            Some(c) => base + seq!["--config"@, c],
            None => base,
        }
    }

    /// A launcher of the executable `executable`, or of `daemon_name` looked
    /// up on the path where none is given.
    pub fn new(
        executable: Option<String>,
        pid_file: String,
        daemon_name: String,
        config: Option<String>,
        verbosity: String,
    ) -> (r: Self)
        ensures
            r.executable_view() == (match executable {
                Some(e) => Some(e@),
                None => None::<Seq<char>>,
            }),
            r.pid_file_view() == pid_file@,
            r.daemon_name_view() == daemon_name@,
            r.config_view() == (match config {
                Some(c) => Some(c@),
                None => None::<Seq<char>>,
            }),
            r.verbosity_view() == verbosity@,
    {
        InitService { executable, pid_file, daemon_name, config, verbosity }
    }

    /// The daemon's PID file.
    pub fn pid_file(&self) -> (r: &String)
        ensures
            r@ == self.pid_file_view(),
    {
        &self.pid_file
    }

    /// The program to run: the executable, or else the daemon's name.
    pub fn program(&self) -> (r: String)
        ensures
            r@ == match self.executable_view() {
                Some(e) => e,
                None => self.daemon_name_view(),
            },
    {
        match &self.executable {
            Some(e) => e.clone(),
            None => self.daemon_name.clone(),
        }
    }

    /// The arguments to run it with.
    pub fn arguments(&self) -> (r: Vec<String>)
        ensures
            views(r@) == self.launch_args(),
    {
        let mut args: Vec<String> = Vec::new();
        proof {
            reveal_strlit("--verbosity");
            reveal_strlit("--daemonize");
            reveal_strlit("--config");
        }
        args.push("--verbosity".to_owned());
        args.push(self.verbosity.clone());
        args.push("--daemonize".to_owned());
        if let Some(path) = &self.config {
            args.push("--config".to_owned());
            args.push(path.clone());
        }
        assert(views(args@) =~= self.launch_args());
        args
    }
}

} // verus!
