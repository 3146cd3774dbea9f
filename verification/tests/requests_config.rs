use hushreader::config::{
    check_components, config_ini_text, diag_report, ensure_rules, launch_args, launch_failed,
    rules_copy_failed, RulesStep,
};
use hushreader::requests::{
    backend_address, fetch_url, local_books_url, progress_request, search_limit, search_url,
    sources_url,
};

#[test]
fn local_urls() {
    assert_eq!(sources_url(7765), "http://127.0.0.1:7765/sources");
    assert_eq!(local_books_url(7801), "http://127.0.0.1:7801/local-books");
    assert_eq!(backend_address(7765), "127.0.0.1:7765");
}

#[test]
fn search_limit_is_capped_at_30() {
    assert_eq!(search_limit(None), 30);
    assert_eq!(search_limit(Some(5)), 5);
    assert_eq!(search_limit(Some(30)), 30);
    assert_eq!(search_limit(Some(31)), 30);
    assert_eq!(search_limit(Some(u32::MAX)), 30);
    assert_eq!(search_limit(Some(0)), 0);
}

#[test]
fn search_url_encodes_keyword() {
    assert_eq!(
        search_url(7765, "三体", None),
        "http://127.0.0.1:7765/search/aggregated?kw=%E4%B8%89%E4%BD%93&searchLimit=30"
    );
    assert_eq!(
        search_url(7766, "a&b", Some(10)),
        "http://127.0.0.1:7766/search/aggregated?kw=a%26b&searchLimit=10"
    );
}

#[test]
fn fetch_url_encodes_parameters() {
    assert_eq!(
        fetch_url(7766, "https://x.com/a?b=1", -3, "epub"),
        "http://127.0.0.1:7766/book-fetch?url=https%3A%2F%2Fx.com%2Fa%3Fb%3D1&id=-3&format=epub"
    );
    assert_eq!(
        fetch_url(7765, "u", 12, "txt"),
        "http://127.0.0.1:7765/book-fetch?url=u&id=12&format=txt"
    );
}

#[test]
fn progress_request_text() {
    assert_eq!(
        progress_request(7765),
        "GET /download-progress HTTP/1.1\r\nHost: 127.0.0.1:7765\r\nAccept: text/event-stream\r\nConnection: keep-alive\r\n\r\n"
    );
}

#[test]
fn config_ini_names_bookshelf_and_port() {
    let expected = "[global]\nauto-update = 0\ngh-proxy =\ncf-bypass =\n[download]\ndownload-path = /home/u/books\nextname = epub\ntxt-encoding = UTF-8\npreserve-chapter-cache = 0\nenable-progressbar = 1\n[source]\nlanguage =\nactive-rules = main.json\nsource-id =\nsearch-limit = 30\nsearch-filter = 1\n[crawl]\nconcurrency = 20\nmin-interval = 200\nmax-interval = 400\nenable-retry = 1\nmax-retries = 3\nretry-min-interval = 2000\nretry-max-interval = 4000\n[web]\nenabled = 1\nport = 7766\n[cookie]\nqidian =\n[proxy]\nenabled = 0\nhost = 127.0.0.1\nport =\n";
    assert_eq!(config_ini_text("/home/u/books", 7766), expected);
}

#[test]
fn launch_arguments() {
    assert_eq!(
        launch_args("/d/config.ini", "/r/app.jar"),
        vec!["-Dmode=web", "-Dconfig.file=/d/config.ini", "-jar", "/r/app.jar"]
    );
}

#[test]
fn component_check() {
    assert_eq!(check_components(true, true), Ok(()));
    let missing = Err("下载后台组件缺失（Java 运行时或 app.jar）".to_string());
    assert_eq!(check_components(false, true), missing);
    assert_eq!(check_components(true, false), missing);
    assert_eq!(check_components(false, false), missing);
}

#[test]
fn diag_record() {
    assert_eq!(
        diag_report("/r", "/r/java", true, "/r/app.jar", false, "/d/config.ini", true),
        "res_dir=/r\njava=/r/java java_exists=true\njar=/r/app.jar jar_exists=false\nconfig=/d/config.ini config_exists=true\n"
    );
}

#[test]
fn rules_installation() {
    assert_eq!(ensure_rules(false, true), Err("下载后台缺少书源规则文件".to_string()));
    assert_eq!(ensure_rules(false, false), Err("下载后台缺少书源规则文件".to_string()));
    assert_eq!(ensure_rules(true, true), Ok(RulesStep::AlreadyInstalled));
    assert_eq!(ensure_rules(true, false), Ok(RulesStep::Copy));
    assert_eq!(rules_copy_failed("denied"), "复制书源规则失败：denied");
    assert_eq!(launch_failed("not found"), "启动下载后台失败：not found");
}
