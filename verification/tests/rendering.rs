use dispatch_core::config::CommandInfo;
use dispatch_core::config::Configuration;
use dispatch_core::config::MainPageInfo;
use dispatch_core::config::StaticPathInfo;
use dispatch_core::environment::Environment;
use dispatch_core::handlers::command::CommandHandler;
use dispatch_core::handlers::command::combined_output;
use dispatch_core::handlers::config::ConfigHandler;
use dispatch_core::handlers::environment::EnvironmentHandler;
use dispatch_core::pool::WorkerPool;
use dispatch_core::response::ResponseBody;
use dispatch_core::textfmt::u64_to_dec_string;

#[test]
fn decimal_rendering_is_exact() {
    assert_eq!(u64_to_dec_string(0), "0");
    assert_eq!(u64_to_dec_string(7), "7");
    assert_eq!(u64_to_dec_string(105), "105");
    assert_eq!(u64_to_dec_string(u64::MAX), "18446744073709551615");
}

fn uname_info() -> CommandInfo {
    CommandInfo::new(
        "/uname".to_string(),
        "kernel info".to_string(),
        "uname".to_string(),
        vec!["-a".to_string(), "-r".to_string()],
    )
}

#[test]
fn command_line_string_has_prompt_and_args() {
    let handler = CommandHandler::new(uname_info());
    assert_eq!(handler.command_line_string().as_str(), "$ uname -a -r");
}

#[test]
fn command_line_string_without_args_is_bare() {
    let handler = CommandHandler::new(CommandInfo::new(
        "/date".to_string(),
        "the date".to_string(),
        "date".to_string(),
        Vec::new(),
    ));
    assert_eq!(handler.command_line_string().as_str(), "$ date");
}

#[test]
fn pre_string_layout_is_exact() {
    let handler = CommandHandler::new(uname_info());
    let pre = handler.build_pre_string(
        &"2024-01-01 00:00:00".to_string(),
        &"Linux host\n".to_string(),
    );
    assert_eq!(pre, "Now: 2024-01-01 00:00:00\n\n$ uname -a -r\n\nLinux host\n");
}

#[test]
fn proxy_pre_string_layout_is_exact() {
    let pre = dispatch_core::handlers::proxy::build_pre_string(
        &"2024-01-01 00:00:00".to_string(),
        &"http://127.0.0.1:9000/data".to_string(),
        &"HTTP/1.1".to_string(),
        &"200 OK".to_string(),
        &"{}".to_string(),
        &"payload".to_string(),
    );
    assert_eq!(
        pre,
        "Now: 2024-01-01 00:00:00\n\nGET http://127.0.0.1:9000/data\n\n\
         Response Status: HTTP/1.1 200 OK\n\nResponse Headers: {}\n\npayload"
    );
}

#[test]
fn combined_output_puts_stderr_first() {
    let out = combined_output(&b"out".to_vec(), &b"err: ".to_vec());
    assert_eq!(out, "err: out");
}

#[test]
fn combined_output_reads_bytes_leniently() {
    let out = combined_output(&vec![0xff, 0xfe], &Vec::new());
    assert_eq!(out, "\u{fffd}\u{fffd}");
}

fn sample_configuration() -> Configuration {
    Configuration::new(
        "127.0.0.1:8080".to_string(),
        4,
        2,
        MainPageInfo::new("lab box".to_string(), 10),
        vec![uname_info()],
        vec![StaticPathInfo::new(
            "/static/report.txt".to_string(),
            "/var/data/report.txt".to_string(),
            "text/plain".to_string(),
            60,
            true,
        )],
    )
}

#[test]
fn configuration_getters_return_what_was_given() {
    let config = sample_configuration();
    assert_eq!(config.listen_address().as_str(), "127.0.0.1:8080");
    assert_eq!(config.handler_threads(), 4);
    assert_eq!(config.worker_threads(), 2);
    assert_eq!(config.main_page_info().title().as_str(), "lab box");
    assert_eq!(config.main_page_info().cache_max_age_seconds(), 10);
    assert_eq!(config.commands().len(), 1);
    assert_eq!(config.commands()[0].http_path().as_str(), "/uname");
    assert_eq!(config.commands()[0].description().as_str(), "kernel info");
    assert_eq!(config.commands()[0].command().as_str(), "uname");
    assert_eq!(config.commands()[0].args(), &vec!["-a".to_string(), "-r".to_string()]);
    assert_eq!(config.static_paths().len(), 1);
    assert_eq!(config.static_paths()[0].http_path().as_str(), "/static/report.txt");
    assert_eq!(config.static_paths()[0].fs_path().as_str(), "/var/data/report.txt");
    assert_eq!(config.static_paths()[0].content_type().as_str(), "text/plain");
    assert_eq!(config.static_paths()[0].cache_max_age_seconds(), 60);
    assert!(config.static_paths()[0].include_in_main_page());
}

#[test]
fn config_handler_renders_one_line_per_fact() {
    let handler = ConfigHandler::new(&sample_configuration());
    let response = handler.handle();
    assert_eq!(response.status, 200);
    assert_eq!(response.content_type.as_deref(), Some("text/plain"));
    let expected = "listen_address: 127.0.0.1:8080\n\
                    handler_threads: 4\n\
                    worker_threads: 2\n\
                    main_page_title: lab box\n\
                    main_page_cache_max_age_seconds: 10\n\
                    command /uname: uname -a -r\n\
                    static_path /static/report.txt: /var/data/report.txt (text/plain, max-age 60)\n";
    match response.body {
        ResponseBody::Text(s) => assert_eq!(s, expected),
        _ => panic!("expected a text body"),
    }
}

#[test]
fn environment_handler_renders_revision_line() {
    let environment = Environment::new("0123abcd".to_string());
    assert_eq!(environment.git_hash().as_str(), "0123abcd");
    let handler = EnvironmentHandler::new(&environment);
    let response = handler.handle();
    assert_eq!(response.status, 200);
    assert_eq!(response.content_type.as_deref(), Some("text/plain"));
    match response.body {
        ResponseBody::Text(s) => assert_eq!(s, "git_hash: 0123abcd\n"),
        _ => panic!("expected a text body"),
    }
}

#[test]
fn worker_pool_admits_only_up_to_capacity() {
    let mut pool = WorkerPool::new(2);
    assert_eq!(pool.capacity(), 2);
    assert_eq!(pool.pending(), 0);
    assert!(pool.try_acquire());
    assert!(pool.try_acquire());
    assert_eq!(pool.pending(), 2);
    assert!(!pool.try_acquire());
    assert_eq!(pool.pending(), 2);
    pool.release();
    assert_eq!(pool.pending(), 1);
    assert!(pool.try_acquire());
    assert!(!pool.try_acquire());
}
