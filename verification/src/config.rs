//! The effective launcher configuration: command-line options merged with
//! the configuration file and built-in defaults. Options win over the file,
//! the file wins over defaults.

use vstd::prelude::*;
use crate::args::Args;
use crate::config_file::ConfigFile;
use crate::paths::Paths;

verus! {

/// The built-in download attempt budget, used when neither the command line
/// nor the configuration file names one.
pub const DEFAULT_DOWNLOAD_ATTEMPTS: usize = 5;

/// The merged, effective configuration.
pub struct Config {
    /// The live install directory.
    pub install_path: String,
    /// The staging directory a new install is promoted from.
    pub new_install_path: String,
    /// The state file.
    pub state_path: String,
    /// Scratch space for extraction.
    pub cache_path: String,
    /// How often to try to resume the download until giving up (0 for
    /// unlimited).
    pub download_attempts: usize,
    /// Whether to check for updates at all.
    pub check_update: bool,
    /// A local archive was supplied, so an update runs regardless of the
    /// check interval.
    pub force_check_update: bool,
    /// Seconds between update checks.
    pub check_update_interval: usize,
    /// Extra arguments handed to the managed binary.
    pub extra_arguments: Vec<String>,
    /// The local archive to install from, if one was supplied.
    pub tar_path: Option<String>,
    /// Timeout for network connections and requests, in seconds.
    pub timeout: Option<usize>,
}

/// The attempt budget the command line and the file merge to: the command
/// line wins, then the file, then the built-in default.
pub open spec fn merged_download_attempts(arg: Option<usize>, file: Option<usize>) -> usize {
    if arg is Some {
        arg->0
    } else if file is Some {
        file->0
    } else {
        DEFAULT_DOWNLOAD_ATTEMPTS
    }
}

/// Update checks run if the command line forces them on, or else if the file
/// enables them.
pub open spec fn merged_check_update(arg: bool, file: bool) -> bool {
    arg || file
}

/// The check interval the command line and the file merge to.
pub open spec fn merged_check_update_interval(arg: Option<usize>, file: usize) -> usize {
    if arg is Some {
        arg->0
    } else {
        file
    }
}

/// An install path from the command line overrides the computed one.
pub open spec fn merged_path(arg: Option<String>, computed: Seq<char>) -> Seq<char> {
    if arg is Some {
        arg->0@
    } else {
        computed
    }
}

/// How a built [`Config`] relates to what it was built from.
pub open spec fn config_matches(c: Config, args: Args, cf: ConfigFile, paths: Paths) -> bool {
    &&& c.install_path@ == merged_path(args.install_dir, paths.install@)
    &&& c.new_install_path@ == merged_path(args.install_dir, paths.new_install@)
    &&& c.state_path@ == paths.state@
    &&& c.cache_path@ == paths.cache@
    &&& c.download_attempts == merged_download_attempts(
        args.download_attempts,
        cf.launcher.download_attempts,
    )
    &&& c.check_update == merged_check_update(args.check_update, cf.launcher.check_update)
    &&& c.force_check_update == (args.tar is Some)
    &&& c.check_update_interval == merged_check_update_interval(
        args.check_update_interval,
        cf.launcher.check_update_interval,
    )
    &&& c.extra_arguments@ == cf.mts_linkchats.extra_arguments@
    &&& (c.tar_path is Some <==> args.tar is Some)
    &&& c.tar_path is Some ==> c.tar_path->0@ == args.tar->0@
    &&& c.timeout == args.timeout
}

/// Clones an optional path.
fn clone_opt_string(o: &Option<String>) -> (r: Option<String>)
    ensures
        r is Some <==> *o is Some,
        r is Some ==> r->0@ == (*o)->0@,
{
    match o {
        Some(s) => Some(s.clone()),
        None => None,
    }
}

/// Clones a list of strings.
fn clone_strings(v: &Vec<String>) -> (r: Vec<String>)
    ensures
        r@ == v@,
{
    let mut r: Vec<String> = Vec::new();
    let mut i: usize = 0;
    while i < v.len()
        invariant
            i <= v.len(),
            r@ == v@.take(i as int),
        decreases v.len() - i,
    {
        r.push(v[i].clone());
        i = i + 1;
        proof {
            assert(r@ =~= v@.take(i as int));
        }
    }
    proof {
        assert(r@ =~= v@);
    }
    r
}

/// Builds a [`Config`] step by step: from the command-line options, then
/// optionally a configuration file and the computed filesystem layout.
pub struct ConfigBuilder<'a> {
    pub args: &'a Args,
    pub cf: Option<&'a ConfigFile>,
    pub paths: Option<Paths>,
}

impl<'a> ConfigBuilder<'a> {
    /// A builder over the given command-line options, with no configuration
    /// file and no filesystem layout supplied yet.
    pub fn new(args: &'a Args) -> (b: Self)
        ensures
            b.args == args,
            b.cf is None,
            b.paths is None,
    {
        ConfigBuilder { args, cf: None, paths: None }
    }

    /// Supplies the configuration file to merge with.
    pub fn config_file(self, cf: &'a ConfigFile) -> (b: Self)
        ensures
            b.args == self.args,
            b.cf == Some(cf),
            b.paths == self.paths,
    {
        ConfigBuilder { args: self.args, cf: Some(cf), paths: self.paths }
    }

    /// Supplies the computed filesystem layout.
    pub fn paths(self, paths: Paths) -> (b: Self)
        ensures
            b.args == self.args,
            b.cf == self.cf,
            b.paths == Some(paths),
    {
        ConfigBuilder { args: self.args, cf: self.cf, paths: Some(paths) }
    }

    /// Merges what was supplied. A missing configuration file stands for a
    /// default one; a missing layout leaves the computed paths empty.
    pub fn build(self) -> (r: Result<Config, crate::config_file::ConfigError>)
        ensures
            r is Ok,
            ({
                let c = r->Ok_0;
                &&& (self.paths matches Some(p) ==> {
                    &&& c.install_path@ == merged_path(self.args.install_dir, p.install@)
                    &&& c.new_install_path@ == merged_path(self.args.install_dir, p.new_install@)
                    &&& c.state_path@ == p.state@
                    &&& c.cache_path@ == p.cache@
                })
                &&& (self.paths is None ==> {
                    &&& c.install_path@ == merged_path(
                        self.args.install_dir,
                        Seq::<char>::empty(),
                    )
                    &&& c.new_install_path@ == merged_path(
                        self.args.install_dir,
                        Seq::<char>::empty(),
                    )
                    &&& c.state_path@ == Seq::<char>::empty()
                    &&& c.cache_path@ == Seq::<char>::empty()
                })
                &&& (self.cf matches Some(cf) ==> {
                    &&& c.download_attempts == merged_download_attempts(
                        self.args.download_attempts,
                        cf.launcher.download_attempts,
                    )
                    &&& c.check_update == merged_check_update(
                        self.args.check_update,
                        cf.launcher.check_update,
                    )
                    &&& c.check_update_interval == merged_check_update_interval(
                        self.args.check_update_interval,
                        cf.launcher.check_update_interval,
                    )
                    &&& c.extra_arguments@ == cf.mts_linkchats.extra_arguments@
                })
                &&& (self.cf is None ==> {
                    &&& c.download_attempts == merged_download_attempts(
                        self.args.download_attempts,
                        None,
                    )
                    &&& c.check_update == merged_check_update(self.args.check_update, true)
                    &&& c.check_update_interval == merged_check_update_interval(
                        self.args.check_update_interval,
                        crate::config_file::DEFAULT_CHECK_UPDATE_INTERVAL,
                    )
                    &&& c.extra_arguments@ == Seq::<String>::empty()
                })
                &&& c.force_check_update == (self.args.tar is Some)
                &&& (c.tar_path is Some <==> self.args.tar is Some)
                &&& (c.tar_path is Some ==> c.tar_path->0@ == self.args.tar->0@)
                &&& c.timeout == self.args.timeout
            }),
    {
        let paths = match self.paths {
            Some(p) => p,
            None => Paths {
                install: String::new(),
                new_install: String::new(),
                state: String::new(),
                cache: String::new(),
            },
        };
        match self.cf {
            Some(cf) => Config::new(self.args, cf, &paths),
            None => {
                let d = ConfigFile::default();
                Config::new(self.args, &d, &paths)
            },
        }
    }
}

impl Config {
    /// A builder over the given command-line options.
    pub fn builder<'a>(args: &'a Args) -> (b: ConfigBuilder<'a>)
        ensures
            b.args == args,
            b.cf is None,
            b.paths is None,
    {
        ConfigBuilder::new(args)
    }

    /// Merges command-line options, a configuration file and the computed
    /// filesystem layout into the effective configuration. Options win over
    /// the file, the file wins over built-in defaults.
    pub fn new(args: &Args, cf: &ConfigFile, paths: &Paths) -> (r: Result<
        Config,
        crate::config_file::ConfigError,
    >)
        ensures
            r is Ok,
            config_matches(r->Ok_0, *args, *cf, *paths),
    {
        let install_path = match &args.install_dir {
            Some(d) => String::from_str(d.as_str()),
            None => String::from_str(paths.install.as_str()),
        };
        let new_install_path = match &args.install_dir {
            Some(d) => String::from_str(d.as_str()),
            None => String::from_str(paths.new_install.as_str()),
        };
        let download_attempts = match args.download_attempts {
            Some(n) => n,
            None => match cf.launcher.download_attempts {
                Some(n) => n,
                None => DEFAULT_DOWNLOAD_ATTEMPTS,
            },
        };
        let check_update = if args.check_update {
            args.check_update
        } else {
            cf.launcher.check_update
        };
        let check_update_interval = match args.check_update_interval {
            Some(n) => n,
            None => cf.launcher.check_update_interval,
        };
        Ok(Config {
            install_path,
            new_install_path,
            state_path: String::from_str(paths.state.as_str()),
            cache_path: String::from_str(paths.cache.as_str()),
            download_attempts,
            check_update,
            force_check_update: args.tar.is_some(),
            check_update_interval,
            extra_arguments: clone_strings(&cf.mts_linkchats.extra_arguments),
            tar_path: clone_opt_string(&args.tar),
            timeout: args.timeout,
        })
    }
}

} // verus!
