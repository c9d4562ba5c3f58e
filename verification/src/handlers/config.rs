//! The configuration diagnostic route.
//!
//! Serves a plain-text rendering of the configuration the server was started
//! with, one line per fact, so a running instance can be inspected. The text
//! is rendered once at startup and served unchanged.

use crate::config::CommandInfoView;
use crate::config::Configuration;
use crate::config::ConfigurationView;
use crate::config::StaticPathInfoView;
use crate::handlers::command::push_args_suffix;
use crate::handlers::command::spec_args_suffix;
use crate::response::Response;
use crate::response::build_response_string;
use crate::response::spec_string_response;
use crate::response::text_plain_content_type_header_value;
use crate::textfmt::dec_rep;
use crate::textfmt::push_dec_u64;
use vstd::prelude::*;

verus! {

/// The line describing one command route.
pub open spec fn spec_command_text(c: CommandInfoView) -> Seq<char> {
    "command "@ + c.http_path + ": "@ + c.command + spec_args_suffix(c.args) + "\n"@
}

/// The lines describing the command routes, in configuration order.
pub open spec fn spec_commands_text(cs: Seq<CommandInfoView>) -> Seq<char>
    decreases cs.len(),
{
    if cs.len() == 0 {
        Seq::empty()
    } else {
        spec_commands_text(cs.drop_last()) + spec_command_text(cs.last())
    }
}

/// The line describing one static-file route.
pub open spec fn spec_static_path_text(s: StaticPathInfoView) -> Seq<char> {
    "static_path "@ + s.http_path + ": "@ + s.fs_path + " ("@ + s.content_type + ", max-age "@
        + dec_rep(s.cache_max_age_seconds as nat) + ")\n"@
}

/// The lines describing the static-file routes, in configuration order.
pub open spec fn spec_static_paths_text(ss: Seq<StaticPathInfoView>) -> Seq<char>
    decreases ss.len(),
{
    if ss.len() == 0 {
        Seq::empty()
    } else {
        spec_static_paths_text(ss.drop_last()) + spec_static_path_text(ss.last())
    }
}

/// The header lines: listen address, lane sizes, and the main page's facts.
pub open spec fn spec_config_header(c: ConfigurationView) -> Seq<char> {
    "listen_address: "@ + c.listen_address + "\n"@ + "handler_threads: "@ + dec_rep(
        c.handler_threads as nat,
    ) + "\n"@ + "worker_threads: "@ + dec_rep(c.worker_threads as nat) + "\n"@
        + "main_page_title: "@ + c.main_page_info.title + "\n"@
        + "main_page_cache_max_age_seconds: "@ + dec_rep(
        c.main_page_info.cache_max_age_seconds as nat,
    ) + "\n"@
}

/// The whole configuration text: the header, then one line per route.
pub open spec fn spec_config_text(c: ConfigurationView) -> Seq<char> {
    spec_config_header(c) + spec_commands_text(c.commands) + spec_static_paths_text(c.static_paths)
}

/// Serves the startup configuration as plain text.
pub struct ConfigHandler {
    config_string: String,
}

impl ConfigHandler {
    /// The text served.
    pub closed spec fn spec_config_string(&self) -> Seq<char> {
        self.config_string@
    }

    /// Renders the configuration's text once, at startup.
    pub fn new(config: &Configuration) -> (r: ConfigHandler)
        ensures
            r.spec_config_string() == spec_config_text(config@),
    {
        let mut s = "listen_address: ".to_owned();
        s.append(config.listen_address().as_str());
        s.append("\n");
        s.append("handler_threads: ");
        push_dec_u64(&mut s, config.handler_threads() as u64);
        s.append("\n");
        s.append("worker_threads: ");
        push_dec_u64(&mut s, config.worker_threads() as u64);
        s.append("\n");
        s.append("main_page_title: ");
        s.append(config.main_page_info().title().as_str());
        s.append("\n");
        s.append("main_page_cache_max_age_seconds: ");
        push_dec_u64(&mut s, config.main_page_info().cache_max_age_seconds() as u64);
        s.append("\n");
        proof {
            assert(s@ =~= spec_config_header(config@));
        }
        let ghost header = s@;

        let commands = config.commands();
        let ghost cmds = config@.commands;
        let n = commands.len();
        let mut i: usize = 0;
        proof {
            assert(cmds.take(0) =~= Seq::<CommandInfoView>::empty());
            assert(s@ =~= header + spec_commands_text(cmds.take(0)));
        }
        while i < n
            invariant
                0 <= i <= n,
                n == commands@.len(),
                cmds == commands@.map_values(|c: crate::config::CommandInfo| c@),
                s@ == header + spec_commands_text(cmds.take(i as int)),
            decreases n - i,
        {
            let c = &commands[i];
            s.append("command ");
            s.append(c.http_path().as_str());
            s.append(": ");
            s.append(c.command().as_str());
            push_args_suffix(&mut s, c.args());
            s.append("\n");
            proof {
                assert(cmds.take(i as int + 1).drop_last() =~= cmds.take(i as int));
                assert(cmds.take(i as int + 1).last() == cmds[i as int]);
                assert(s@ =~= header + spec_commands_text(cmds.take(i as int + 1)));
            }
            i += 1;
        }
        proof {
            assert(cmds.take(n as int) =~= cmds);
        }
        let ghost with_commands = s@;

        let static_paths = config.static_paths();
        let ghost sps = config@.static_paths;
        let m = static_paths.len();
        let mut j: usize = 0;
        proof {
            assert(sps.take(0) =~= Seq::<StaticPathInfoView>::empty());
            assert(s@ =~= with_commands + spec_static_paths_text(sps.take(0)));
        }
        while j < m
            invariant
                0 <= j <= m,
                m == static_paths@.len(),
                sps == static_paths@.map_values(|p: crate::config::StaticPathInfo| p@),
                s@ == with_commands + spec_static_paths_text(sps.take(j as int)),
            decreases m - j,
        {
            let p = &static_paths[j];
            s.append("static_path ");
            s.append(p.http_path().as_str());
            s.append(": ");
            s.append(p.fs_path().as_str());
            s.append(" (");
            s.append(p.content_type().as_str());
            s.append(", max-age ");
            push_dec_u64(&mut s, p.cache_max_age_seconds() as u64);
            s.append(")\n");
            proof {
                assert(sps.take(j as int + 1).drop_last() =~= sps.take(j as int));
                assert(sps.take(j as int + 1).last() == sps[j as int]);
                assert(s@ =~= with_commands + spec_static_paths_text(sps.take(j as int + 1)));
            }
            j += 1;
        }
        proof {
            assert(sps.take(m as int) =~= sps);
            assert(s@ =~= spec_config_text(config@));
        }
        ConfigHandler { config_string: s }
    }

    /// Always yields the configuration text with status 200.
    pub fn handle(&self) -> (r: Response)
        ensures
            r@ == spec_string_response(200, self.spec_config_string(), "text/plain"@),
    {
        build_response_string(
            200,
            self.config_string.clone(),
            text_plain_content_type_header_value(),
        )
    }
}

} // verus!
