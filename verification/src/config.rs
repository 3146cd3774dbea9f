//! What the download back-end is started with: its configuration file, its
//! command line, the start-up checks and the diagnostic record.

use vstd::prelude::*;
use crate::text::{decimal, decimal_string};

verus! {

/// The configuration text up to the download directory.
pub const CONFIG_HEAD: &'static str = "[global]\nauto-update = 0\ngh-proxy =\ncf-bypass =\n[download]\ndownload-path = ";

/// The configuration text between the download directory and the port.
pub const CONFIG_MIDDLE: &'static str = "\nextname = epub\ntxt-encoding = UTF-8\npreserve-chapter-cache = 0\nenable-progressbar = 1\n[source]\nlanguage =\nactive-rules = main.json\nsource-id =\nsearch-limit = 30\nsearch-filter = 1\n[crawl]\nconcurrency = 20\nmin-interval = 200\nmax-interval = 400\nenable-retry = 1\nmax-retries = 3\nretry-min-interval = 2000\nretry-max-interval = 4000\n[web]\nenabled = 1\nport = ";

/// The configuration text after the port.
pub const CONFIG_TAIL: &'static str = "\n[cookie]\nqidian =\n[proxy]\nenabled = 0\nhost = 127.0.0.1\nport =\n";

/// The back-end's configuration: downloads go to `bookshelf`, the web
/// interface listens on `port`.
pub open spec fn config_text(bookshelf: Seq<char>, port: u16) -> Seq<char> {
    CONFIG_HEAD@ + bookshelf + CONFIG_MIDDLE@ + decimal(port as nat) + CONFIG_TAIL@
}

/// The text of the back-end's `config.ini`.
pub fn config_ini_text(bookshelf: &str, port: u16) -> (r: String)
    ensures
        r@ == config_text(bookshelf@, port),
{
    let mut r = String::from_str(CONFIG_HEAD);
    r.append(bookshelf);
    r.append(CONFIG_MIDDLE);
    let p = decimal_string(port as u64);
    r.append(p.as_str());
    r.append(CONFIG_TAIL);
    r
}

/// The arguments the Java runtime is started with.
pub fn launch_args(config_path: &str, jar_path: &str) -> (r: Vec<String>)
    ensures
        r@.len() == 4,
        r@[0]@ == "-Dmode=web"@,
        r@[1]@ == "-Dconfig.file="@ + config_path@,
        r@[2]@ == "-jar"@,
        r@[3]@ == jar_path@,
{
    let mut r: Vec<String> = Vec::new();
    r.push(String::from_str("-Dmode=web"));
    let mut config_arg = String::from_str("-Dconfig.file=");
    config_arg.append(config_path);
    r.push(config_arg);
    r.push(String::from_str("-jar"));
    r.push(String::from_str(jar_path));
    r
}

/// The message when the Java runtime or the jar is missing.
pub open spec fn missing_components_message() -> Seq<char> {
    "下载后台组件缺失（Java 运行时或 app.jar）"@
}

/// Refuses to start the back-end unless both the Java runtime and the jar
/// exist.
pub fn check_components(java_exists: bool, jar_exists: bool) -> (r: Result<(), String>)
    ensures
        r is Ok <==> java_exists && jar_exists,
        r matches Err(e) ==> e@ == missing_components_message(),
{
    if !java_exists || !jar_exists {
        Err(String::from_str("下载后台组件缺失（Java 运行时或 app.jar）"))
    } else {
        Ok(())
    }
}

/// Law: the configuration sends downloads to the book shelf and serves the
/// web interface on the chosen port: after a line break comes the line
/// `download-path = <bookshelf>`, and later, right after `[web]` and
/// `enabled = 1`, the line `port = <port>`.
pub proof fn config_names_bookshelf_and_port(bookshelf: Seq<char>, port: u16)
    ensures
        exists|before: Seq<char>, between: Seq<char>, after: Seq<char>|
            before.len() > 0 && before.last() == '\n' && #[trigger] config_text(bookshelf, port)
                == before + "download-path = "@ + bookshelf + "\n"@ + between
                + "[web]\nenabled = 1\nport = "@ + decimal(port as nat) + "\n"@ + after,
{
    reveal_strlit("[global]\nauto-update = 0\ngh-proxy =\ncf-bypass =\n[download]\ndownload-path = ");
    reveal_strlit("\nextname = epub\ntxt-encoding = UTF-8\npreserve-chapter-cache = 0\nenable-progressbar = 1\n[source]\nlanguage =\nactive-rules = main.json\nsource-id =\nsearch-limit = 30\nsearch-filter = 1\n[crawl]\nconcurrency = 20\nmin-interval = 200\nmax-interval = 400\nenable-retry = 1\nmax-retries = 3\nretry-min-interval = 2000\nretry-max-interval = 4000\n[web]\nenabled = 1\nport = ");
    reveal_strlit("\n[cookie]\nqidian =\n[proxy]\nenabled = 0\nhost = 127.0.0.1\nport =\n");
    reveal_strlit("download-path = ");
    reveal_strlit("\n");
    reveal_strlit("[web]\nenabled = 1\nport = ");
    let head = CONFIG_HEAD@;
    let middle = CONFIG_MIDDLE@;
    let tail = CONFIG_TAIL@;
    let before = head.subrange(0, head.len() - 16);
    let between = middle.subrange(1, middle.len() - 25);
    let after = tail.skip(1);
    assert(head =~= before + "download-path = "@);
    assert(middle =~= "\n"@ + between + "[web]\nenabled = 1\nport = "@);
    assert(tail =~= "\n"@ + after);
    assert(config_text(bookshelf, port) =~= before + "download-path = "@ + bookshelf + "\n"@
        + between + "[web]\nenabled = 1\nport = "@ + decimal(port as nat) + "\n"@ + after);
}

/// `true` or `false`, as `Display` writes a `bool`.
pub open spec fn bool_text(b: bool) -> Seq<char> {
    if b {
        "true"@
    } else {
        "false"@
    }
}

fn bool_string(b: bool) -> (r: String)
    ensures
        r@ == bool_text(b),
{
    if b {
        String::from_str("true")
    } else {
        String::from_str("false")
    }
}

/// The diagnostic record of the paths a start-up used.
pub open spec fn diag_text(
    res_dir: Seq<char>,
    java: Seq<char>,
    java_exists: bool,
    jar: Seq<char>,
    jar_exists: bool,
    config: Seq<char>,
    config_exists: bool,
) -> Seq<char> {
    "res_dir="@ + res_dir + "\njava="@ + java + " java_exists="@ + bool_text(java_exists)
        + "\njar="@ + jar + " jar_exists="@ + bool_text(jar_exists) + "\nconfig="@ + config
        + " config_exists="@ + bool_text(config_exists) + "\n"@
}

/// Writes the diagnostic record (see `diag_text`).
pub fn diag_report(
    res_dir: &str,
    java: &str,
    java_exists: bool,
    jar: &str,
    jar_exists: bool,
    config: &str,
    config_exists: bool,
) -> (r: String)
    ensures
        r@ == diag_text(res_dir@, java@, java_exists, jar@, jar_exists, config@, config_exists),
{
    let mut r = String::from_str("res_dir=");
    r.append(res_dir);
    r.append("\njava=");
    r.append(java);
    r.append(" java_exists=");
    let b1 = bool_string(java_exists);
    r.append(b1.as_str());
    r.append("\njar=");
    r.append(jar);
    r.append(" jar_exists=");
    let b2 = bool_string(jar_exists);
    r.append(b2.as_str());
    r.append("\nconfig=");
    r.append(config);
    r.append(" config_exists=");
    let b3 = bool_string(config_exists);
    r.append(b3.as_str());
    r.append("\n");
    r
}

/// What installing the book-source rules takes.
#[derive(PartialEq, Eq, Structural, Debug, Clone, Copy)]
pub enum RulesStep {
    /// The rules are already in the data directory.
    AlreadyInstalled,
    /// The rules must be copied into the data directory.
    Copy,
}

/// The message when the bundled rules are missing.
pub open spec fn missing_rules_message() -> Seq<char> {
    "下载后台缺少书源规则文件"@
}

/// Decides how the book-source rules reach the data directory: they must
/// be bundled; they are copied unless the data directory already holds
/// their `main.json`.
pub fn ensure_rules(bundled_exists: bool, installed_main_exists: bool) -> (r: Result<RulesStep, String>)
    ensures
        !bundled_exists ==> (r matches Err(e) && e@ == missing_rules_message()),
        bundled_exists && installed_main_exists ==> r == Ok::<RulesStep, String>(RulesStep::AlreadyInstalled),
        bundled_exists && !installed_main_exists ==> r == Ok::<RulesStep, String>(RulesStep::Copy),
{
    if !bundled_exists {
        return Err(String::from_str("下载后台缺少书源规则文件"));
    }
    if installed_main_exists {
        return Ok(RulesStep::AlreadyInstalled);
    }
    Ok(RulesStep::Copy)
}

/// The message when copying the rules failed with `detail`.
pub fn rules_copy_failed(detail: &str) -> (r: String)
    ensures
        r@ == "复制书源规则失败："@ + detail@,
{
    let mut r = String::from_str("复制书源规则失败：");
    r.append(detail);
    r
}

/// The message when the back-end process could not be started.
pub fn launch_failed(detail: &str) -> (r: String)
    ensures
        r@ == "启动下载后台失败："@ + detail@,
{
    let mut r = String::from_str("启动下载后台失败：");
    r.append(detail);
    r
}

} // verus!
