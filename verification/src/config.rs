//! Static configuration.
//!
//! The configuration is read once at startup by an external collaborator and
//! handed to the core as plain values: the listen address, the two lane
//! sizes, the main page's description, and the route definitions (shell
//! commands and static paths). The core consumes it once to build the route
//! table and never re-reads it.

use vstd::prelude::*;

verus! {

/// One shell-command route: its path, a description for the index page, and
/// the command line to run.
#[derive(Clone)]
pub struct CommandInfo {
    http_path: String,
    description: String,
    command: String,
    args: Vec<String>,
}

/// Mathematical shape of a `CommandInfo`.
pub struct CommandInfoView {
    pub http_path: Seq<char>,
    pub description: Seq<char>,
    pub command: Seq<char>,
    pub args: Seq<Seq<char>>,
}

impl View for CommandInfo {
    type V = CommandInfoView;

    closed spec fn view(&self) -> CommandInfoView {
        CommandInfoView {
            http_path: self.http_path@,
            description: self.description@,
            command: self.command@,
            args: self.args@.map_values(|a: String| a@),
        }
    }
}

impl CommandInfo {
    pub fn new(http_path: String, description: String, command: String, args: Vec<String>) -> (r:
        CommandInfo)
        ensures
            r@ == (CommandInfoView {
                http_path: http_path@,
                description: description@,
                command: command@,
                args: args@.map_values(|a: String| a@),
            }),
    {
        CommandInfo { http_path, description, command, args }
    }

    pub fn http_path(&self) -> (r: &String)
        ensures
            r@ == self@.http_path,
    {
        &self.http_path
    }

    pub fn description(&self) -> (r: &String)
        ensures
            r@ == self@.description,
    {
        &self.description
    }

    pub fn command(&self) -> (r: &String)
        ensures
            r@ == self@.command,
    {
        &self.command
    }

    pub fn args(&self) -> (r: &Vec<String>)
        ensures
            r@.map_values(|a: String| a@) == self@.args,
    {
        &self.args
    }
}

/// One static-file route: its path, the file it serves, the content type,
/// the cache lifetime in seconds, and whether the index page links it.
#[derive(Clone)]
pub struct StaticPathInfo {
    http_path: String,
    fs_path: String,
    content_type: String,
    cache_max_age_seconds: u32,
    include_in_main_page: bool,
}

/// Mathematical shape of a `StaticPathInfo`.
pub struct StaticPathInfoView {
    pub http_path: Seq<char>,
    pub fs_path: Seq<char>,
    pub content_type: Seq<char>,
    pub cache_max_age_seconds: u32,
    pub include_in_main_page: bool,
}

impl View for StaticPathInfo {
    type V = StaticPathInfoView;

    closed spec fn view(&self) -> StaticPathInfoView {
        StaticPathInfoView {
            http_path: self.http_path@,
            fs_path: self.fs_path@,
            content_type: self.content_type@,
            cache_max_age_seconds: self.cache_max_age_seconds,
            include_in_main_page: self.include_in_main_page,
        }
    }
}

impl StaticPathInfo {
    pub fn new(
        http_path: String,
        fs_path: String,
        content_type: String,
        cache_max_age_seconds: u32,
        include_in_main_page: bool,
    ) -> (r: StaticPathInfo)
        ensures
            r@ == (StaticPathInfoView {
                http_path: http_path@,
                fs_path: fs_path@,
                content_type: content_type@,
                cache_max_age_seconds,
                include_in_main_page,
            }),
    {
        StaticPathInfo { http_path, fs_path, content_type, cache_max_age_seconds, include_in_main_page }
    }

    pub fn http_path(&self) -> (r: &String)
        ensures
            r@ == self@.http_path,
    {
        &self.http_path
    }

    pub fn fs_path(&self) -> (r: &String)
        ensures
            r@ == self@.fs_path,
    {
        &self.fs_path
    }

    pub fn content_type(&self) -> (r: &String)
        ensures
            r@ == self@.content_type,
    {
        &self.content_type
    }

    pub fn cache_max_age_seconds(&self) -> (r: u32)
        ensures
            r == self@.cache_max_age_seconds,
    {
        self.cache_max_age_seconds
    }

    pub fn include_in_main_page(&self) -> (r: bool)
        ensures
            r == self@.include_in_main_page,
    {
        self.include_in_main_page
    }
}

/// The index page's description: title and cache lifetime.
#[derive(Clone)]
pub struct MainPageInfo {
    title: String,
    cache_max_age_seconds: u32,
}

/// Mathematical shape of a `MainPageInfo`.
pub struct MainPageInfoView {
    pub title: Seq<char>,
    pub cache_max_age_seconds: u32,
}

impl View for MainPageInfo {
    type V = MainPageInfoView;

    closed spec fn view(&self) -> MainPageInfoView {
        MainPageInfoView { title: self.title@, cache_max_age_seconds: self.cache_max_age_seconds }
    }
}

impl MainPageInfo {
    pub fn new(title: String, cache_max_age_seconds: u32) -> (r: MainPageInfo)
        ensures
            r@ == (MainPageInfoView { title: title@, cache_max_age_seconds }),
    {
        MainPageInfo { title, cache_max_age_seconds }
    }

    pub fn title(&self) -> (r: &String)
        ensures
            r@ == self@.title,
    {
        &self.title
    }

    pub fn cache_max_age_seconds(&self) -> (r: u32)
        ensures
            r == self@.cache_max_age_seconds,
    {
        self.cache_max_age_seconds
    }
}

/// The whole startup configuration.
pub struct Configuration {
    listen_address: String,
    handler_threads: usize,
    worker_threads: usize,
    main_page_info: MainPageInfo,
    commands: Vec<CommandInfo>,
    static_paths: Vec<StaticPathInfo>,
}

/// Mathematical shape of a `Configuration`.
pub struct ConfigurationView {
    pub listen_address: Seq<char>,
    pub handler_threads: usize,
    pub worker_threads: usize,
    pub main_page_info: MainPageInfoView,
    pub commands: Seq<CommandInfoView>,
    pub static_paths: Seq<StaticPathInfoView>,
}

impl View for Configuration {
    type V = ConfigurationView;

    closed spec fn view(&self) -> ConfigurationView {
        ConfigurationView {
            listen_address: self.listen_address@,
            handler_threads: self.handler_threads,
            worker_threads: self.worker_threads,
            main_page_info: self.main_page_info@,
            commands: self.commands@.map_values(|c: CommandInfo| c@),
            static_paths: self.static_paths@.map_values(|s: StaticPathInfo| s@),
        }
    }
}

impl Configuration {
    pub fn new(
        listen_address: String,
        handler_threads: usize,
        worker_threads: usize,
        main_page_info: MainPageInfo,
        commands: Vec<CommandInfo>,
        static_paths: Vec<StaticPathInfo>,
    ) -> (r: Configuration)
        ensures
            r@ == (ConfigurationView {
                listen_address: listen_address@,
                handler_threads,
                worker_threads,
                main_page_info: main_page_info@,
                commands: commands@.map_values(|c: CommandInfo| c@),
                static_paths: static_paths@.map_values(|s: StaticPathInfo| s@),
            }),
    {
        Configuration {
            listen_address,
            handler_threads,
            worker_threads,
            main_page_info,
            commands,
            static_paths,
        }
    }

    pub fn listen_address(&self) -> (r: &String)
        ensures
            r@ == self@.listen_address,
    {
        &self.listen_address
    }

    pub fn handler_threads(&self) -> (r: usize)
        ensures
            r == self@.handler_threads,
    {
        self.handler_threads
    }

    pub fn worker_threads(&self) -> (r: usize)
        ensures
            r == self@.worker_threads,
    {
        self.worker_threads
    }

    pub fn main_page_info(&self) -> (r: &MainPageInfo)
        ensures
            r@ == self@.main_page_info,
    {
        &self.main_page_info
    }

    pub fn commands(&self) -> (r: &Vec<CommandInfo>)
        ensures
            r@.map_values(|c: CommandInfo| c@) == self@.commands,
    {
        &self.commands
    }

    pub fn static_paths(&self) -> (r: &Vec<StaticPathInfo>)
        ensures
            r@.map_values(|s: StaticPathInfo| s@) == self@.static_paths,
    {
        &self.static_paths
    }
}

} // verus!
