use goose::session::extension::{name_from_url, parse_command, ExtensionConfig, ExtensionDefaults, UrlParts};
use goose::session::state::CliSession;

fn defaults() -> ExtensionDefaults {
    ExtensionDefaults { description: "An extension".to_string(), timeout: 300 }
}

struct Stdio {
    name: String,
    cmd: String,
    args: Vec<String>,
    envs: Vec<(String, String)>,
}

fn stdio(input: &str) -> Stdio {
    match CliSession::parse_stdio_extension(input, &defaults()).unwrap() {
        ExtensionConfig::Stdio {
            name,
            cmd,
            args,
            envs,
            env_keys,
            description,
            timeout,
            bundled,
            available_tools,
        } => {
            assert!(env_keys.is_empty());
            assert_eq!(description, "An extension");
            assert_eq!(timeout, Some(300));
            assert_eq!(bundled, None);
            assert!(available_tools.is_empty());
            Stdio { name, cmd, args, envs: envs.entries }
        }
        _ => panic!("a command makes a stdio extension"),
    }
}

fn http_name(url: &str, seconds: u64) -> String {
    match CliSession::parse_streamable_http_extension(url, seconds, &defaults()) {
        ExtensionConfig::StreamableHttp {
            name,
            uri,
            envs,
            env_keys,
            headers,
            description,
            timeout,
            bundled,
            available_tools,
        } => {
            assert_eq!(uri, url);
            assert!(envs.entries.is_empty());
            assert!(env_keys.is_empty());
            assert!(headers.entries.is_empty());
            assert_eq!(description, "An extension");
            assert_eq!(timeout, Some(seconds));
            assert_eq!(bundled, None);
            assert!(available_tools.is_empty());
            name
        }
        _ => panic!("a URL makes an HTTP extension"),
    }
}

#[test]
fn test_parse_stdio_extension() {
    let c = stdio("/usr/bin/my-server");
    assert_eq!(c.name, "my-server");
    assert_eq!(c.cmd, "/usr/bin/my-server");
    assert!(c.args.is_empty());
    assert!(c.envs.is_empty());

    let c = stdio("MY_SECRET=s3cret npx -y @modelcontextprotocol/server-everything");
    assert_eq!(c.name, "npx");
    assert_eq!(c.cmd, "npx");
    assert_eq!(c.args, vec!["-y", "@modelcontextprotocol/server-everything"]);
    assert_eq!(c.envs, vec![("MY_SECRET".to_string(), "s3cret".to_string())]);
}

#[test]
fn test_parse_stdio_extension_no_command() {
    assert!(CliSession::parse_stdio_extension("", &defaults()).is_err());
}

#[test]
fn settings_alone_are_no_command() {
    let why = CliSession::parse_stdio_extension("A=1 B=2", &defaults()).err().unwrap();
    assert_eq!(why, "No command provided in extension string");
}

#[test]
fn settings_are_taken_apart_at_the_first_sign() {
    let c = stdio("A=1=2  B=  A=3 run C=4");
    let mut envs = c.envs;
    envs.sort();
    assert_eq!(
        envs,
        vec![("A".to_string(), "3".to_string()), ("B".to_string(), "".to_string())]
    );
    assert_eq!(c.cmd, "run");
    assert_eq!(c.args, vec!["C=4"]);
}

#[test]
fn commands_are_named_after_their_file() {
    assert_eq!(stdio("./tools/run.sh --fast").name, "run.sh");
    assert_eq!(stdio("tools/bin/").name, "bin");
    assert_eq!(stdio("tools/..").name, "unnamed");
    assert_eq!(stdio("/").name, "unnamed");
    assert_eq!(stdio("tools/./run//").name, "run");
    assert_eq!(stdio("image:tag").name, "image:tag");
    assert_eq!(stdio("tools/c:/run").name, "run");
    assert_eq!(stdio("tools/run:2").name, "run:2");
    assert!(parse_command("   ").is_none());
}

#[test]
fn names_are_the_last_part_of_every_path() {
    for (command, part) in [(r"tools\run.exe", "run.exe"), ("C:run.exe", "run.exe"), ("//host/dir/run", "run")] {
        let c = stdio(command);
        assert!(c.name.ends_with(part));
        assert!(command.ends_with(c.name.as_str()));
        assert!(!c.name.contains('/'));
        assert_eq!(c.cmd, command);
    }
}

#[test]
fn test_parse_streamable_http_extension() {
    assert_eq!(http_name("https://mcp.kiwi.com", 300), "mcp.kiwi.com");
    assert_eq!(http_name("http://localhost:8080/api", 300), "localhost_8080_api");
    assert_eq!(http_name("http://localhost:9090/other", 300), "localhost_9090_other");
}

#[test]
fn urls_without_parts_have_no_name() {
    assert_eq!(http_name("no url at all", 20), "unnamed");
    assert_eq!(http_name("https://example.org/a/b/", 20), "example.org_a/b");
    assert_eq!(http_name("https://example.org:443/", 20), "example.org");
    assert_eq!(name_from_url(None), "unnamed");
    assert_eq!(
        name_from_url(Some(UrlParts { host: None, port: None, path: "//".into() })),
        "unnamed"
    );
    assert_eq!(
        name_from_url(Some(UrlParts { host: None, port: Some(7), path: "/x/".into() })),
        "_7_x"
    );
}

#[test]
fn builtin_extensions_are_listed_with_commas() {
    let platform = vec!["chat".to_string(), "todo".to_string()];
    let configs = CliSession::parse_builtin_extensions("developer, chat ,memory", &platform);
    assert_eq!(configs.len(), 3);
    match &configs[0] {
        ExtensionConfig::Builtin { name, display_name, timeout, bundled, description, available_tools } => {
            assert_eq!(name, "developer");
            assert_eq!(description, "developer");
            assert!(display_name.is_none() && timeout.is_none() && bundled.is_none());
            assert!(available_tools.is_empty());
        }
        _ => panic!("developer is no part of the platform"),
    }
    match &configs[1] {
        ExtensionConfig::Platform { name, description, display_name, bundled, available_tools } => {
            assert_eq!(name, "chat");
            assert_eq!(description, "chat");
            assert!(display_name.is_none() && bundled.is_none());
            assert!(available_tools.is_empty());
        }
        _ => panic!("chat is part of the platform"),
    }
    assert!(matches!(&configs[2], ExtensionConfig::Builtin { name, .. } if name == "memory"));
    assert_eq!(CliSession::parse_builtin_extensions("", &platform).len(), 1);
}
