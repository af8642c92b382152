use libpoly::cli::{
    answer_shown, decimal_string, message, provision_endpoint, run, run_cfg_getset, run_msg_cmd, run_rest_cmd,
    Cli, Commands, ConfigSetGetSubcommand, MgmtCommands, Plan, PushCmdSubcommands,
    PushSubcommands, RestCommands, Shown, DEFAULT_PORT, DEFAULT_USER,
};
use libpoly::polyrest::{PolyRest, RestMethod};
use libpoly::push::{MessageLevel, PushType};
use libpoly::tmpl::{alert_tmpl, render_alert_template};

const ALERT_TMPL: &str = r#"
<head>
    <style>
        body{background-color:black}
        .container{position:absolute;left:50%;top:50%;margin:-80px 0 0 -140px;}
        .box{background: #ff0909;border-radius: 0px 0px 0px 0px;width: 280px;max-height: 150px;word-wrap: break-word;overflow: hidden;border: 1px solid #808080;margin: 0px auto;}
        .box bold{font-weight:bold;font-family : geneva, helvetica;color : #FFFFFF; font-size : medium;}
        .box p{ font-family : geneva, helvetica;color : #FFFFFF; font-size : small;margin:10px 10px 25px 10px;}
    </style>
</head>
<body>
    <div class="container">
        <div class="box">
            <p>
                <bold>{{title}}</bold><br>
                {{body}}<br>
            </p>
        </div>
    </div>
</body>
"#;

fn cli(command: Commands) -> Cli {
    Cli {
        user: DEFAULT_USER.to_string(),
        pass: "789".to_string(),
        url: "https://192.168.1.9".to_string(),
        timeout: Some(30),
        command,
    }
}

#[test]
fn defaults() {
    assert_eq!(DEFAULT_USER, "Polycom");
    assert_eq!(DEFAULT_PORT, 8000);
}

#[test]
fn numbers_are_written_in_decimal() {
    assert_eq!(decimal_string(0), "0");
    assert_eq!(decimal_string(7), "7");
    assert_eq!(decimal_string(10), "10");
    assert_eq!(decimal_string(8000), "8000");
    assert_eq!(decimal_string(1234567890), "1234567890");
    assert_eq!(decimal_string(u32::MAX), "4294967295");
}

#[test]
fn provisioner_binds_every_interface() {
    assert_eq!(provision_endpoint(8000), "0.0.0.0:8000");
    match run(cli(Commands::Provisioner { port: 69, path: "/srv/poly".to_string() })).unwrap() {
        Plan::Provision { endpoint, path } => {
            assert_eq!(endpoint, "0.0.0.0:69");
            assert_eq!(path, "/srv/poly");
        }
        other => panic!("unexpected plan: {:?}", other),
    }
}

#[test]
fn dial_key_and_raw_are_commands() {
    let dial = PushSubcommands::Cmd {
        subcommand: PushCmdSubcommands::Dial { number: "5551234".to_string() },
    };
    assert_eq!(message(dial).unwrap(), ("tel:\\5551234".to_string(), PushType::Command));
    let key =
        PushSubcommands::Cmd { subcommand: PushCmdSubcommands::Key { key: "Home".to_string() } };
    assert_eq!(message(key).unwrap(), ("Key:Home".to_string(), PushType::Command));
    let raw = PushSubcommands::Cmd {
        subcommand: PushCmdSubcommands::Raw { msg: "Key:Softkey1".to_string() },
    };
    assert_eq!(message(raw).unwrap(), ("Key:Softkey1".to_string(), PushType::Command));
}

#[test]
fn html_is_sent_as_given() {
    let html = PushSubcommands::Html { msg: "<h1>hi</h1>".to_string() };
    assert_eq!(message(html).unwrap(), ("<h1>hi</h1>".to_string(), PushType::HTML));
}

#[test]
fn alert_fills_the_template() {
    let text = render_alert_template("Fire".to_string(), "Leave now".to_string()).unwrap();
    let expected = ALERT_TMPL.replace("{{title}}", "Fire").replace("{{body}}", "Leave now");
    assert_eq!(alert_tmpl(), ALERT_TMPL);
    assert_eq!(text, expected);
    assert!(text.contains("<bold>Fire</bold><br>"));
    let alert =
        PushSubcommands::Alert { header: "Fire".to_string(), str_msg: "Leave now".to_string() };
    assert_eq!(message(alert).unwrap(), (expected, PushType::HTML));
}

#[test]
fn alert_escapes_markup_in_its_parameters() {
    let text = render_alert_template("a<b".to_string(), "x&y".to_string()).unwrap();
    assert!(text.contains("<bold>a&lt;b</bold><br>"));
    assert!(text.contains("x&amp;y<br>"));
}

#[test]
fn alert_replaces_seven_characters() {
    let text = render_alert_template("<>\"&'`=".to_string(), "a\u{e9}\n{{b}} 1=2".to_string())
        .unwrap();
    let expected = ALERT_TMPL
        .replace("{{title}}", "&lt;&gt;&quot;&amp;&#x27;&#x60;&#x3D;")
        .replace("{{body}}", "a\u{e9}\n{{b}} 1&#x3D;2");
    assert_eq!(text, expected);
    let empty = render_alert_template(String::new(), String::new()).unwrap();
    assert_eq!(empty, ALERT_TMPL.replace("{{title}}", "").replace("{{body}}", ""));
}

#[test]
fn answers_are_read_by_command() {
    let mgmt = |subcommand| RestCommands::Mgmt { subcommand };
    assert_eq!(answer_shown(&RestCommands::Ctrl), Shown::Raw);
    assert_eq!(answer_shown(&mgmt(MgmtCommands::Info)), Shown::DeviceInfo);
    assert_eq!(answer_shown(&mgmt(MgmtCommands::Network)), Shown::NetworkInfo);
    assert_eq!(answer_shown(&mgmt(MgmtCommands::NetStats)), Shown::NetworkStats);
    let get = ConfigSetGetSubcommand::Get { value: "x".to_string() };
    assert_eq!(answer_shown(&mgmt(MgmtCommands::Config { subcommand: get })), Shown::Config);
    let put = ConfigSetGetSubcommand::Put { key: "x".to_string(), value: "1".to_string() };
    assert_eq!(answer_shown(&mgmt(MgmtCommands::Config { subcommand: put })), Shown::Raw);
}

#[test]
fn push_command_begins_a_delivery() {
    let delivery = run_msg_cmd(
        "Push".to_string(),
        "secret".to_string(),
        "https://192.168.1.9".to_string(),
        PushSubcommands::Cmd { subcommand: PushCmdSubcommands::Key { key: "Home".to_string() } },
        MessageLevel::Critical,
        None,
    )
    .unwrap();
    assert_eq!(delivery.timeout, None);
    assert!(delivery.insecure);
    assert_eq!(delivery.endpoint, "https://192.168.1.9/push");
    assert_eq!(delivery.username, "Push");
    assert_eq!(delivery.password, "secret");
    assert_eq!(delivery.kind, PushType::Command);
    assert_eq!(
        delivery.body,
        "<PolycomIPPhone><Data priority=\"critical\">Key:Home</Data></PolycomIPPhone>"
    );
}

#[test]
fn push_plan_holds_the_delivery() {
    let plan = run(cli(Commands::Push {
        level: MessageLevel::Normal,
        subcommand: PushSubcommands::Html { msg: "<p>a & b</p>".to_string() },
    }))
    .unwrap();
    match plan {
        Plan::Push(delivery) => {
            assert_eq!(delivery.kind, PushType::HTML);
            assert_eq!(delivery.timeout, Some(30));
            assert_eq!(delivery.username, "Polycom");
            assert_eq!(
                delivery.body,
                "<PolycomIPPhone><Data priority=\"normal\"><p>a & b</p></Data></PolycomIPPhone>"
            );
        }
        other => panic!("unexpected plan: {:?}", other),
    }
}

#[test]
fn rest_commands_name_their_resources() {
    let cases = [
        (MgmtCommands::Info, "https://192.168.1.9/api/v1/mgmt/device/info"),
        (MgmtCommands::Network, "https://192.168.1.9/api/v1/mgmt/network/info"),
        (MgmtCommands::NetStats, "https://192.168.1.9/api/v1/mgmt/network/stats"),
    ];
    for (subcommand, url) in cases {
        let request = run_rest_cmd(
            "Polycom".to_string(),
            "789".to_string(),
            "https://192.168.1.9".to_string(),
            RestCommands::Mgmt { subcommand },
        )
        .unwrap()
        .unwrap();
        assert_eq!(request.method, RestMethod::Get);
        assert_eq!(request.url, url);
        assert_eq!(request.username, "Polycom");
        assert_eq!(request.password, "789");
    }
}

#[test]
fn ctrl_asks_for_nothing() {
    let request = run_rest_cmd(
        "Polycom".to_string(),
        "789".to_string(),
        "https://192.168.1.9".to_string(),
        RestCommands::Ctrl,
    )
    .unwrap();
    assert!(request.is_none());
    match run(cli(Commands::Rest { subcommand: RestCommands::Ctrl })).unwrap() {
        Plan::Rest(None) => {}
        other => panic!("unexpected plan: {:?}", other),
    }
}

#[test]
fn config_commands_post_json() {
    let handler = PolyRest::new(
        "Polycom".to_string(),
        "789".to_string(),
        "https://192.168.1.9".to_string(),
        true,
    );
    let get = run_cfg_getset(
        &handler,
        ConfigSetGetSubcommand::Get { value: "voIpProt.SIP.enable".to_string() },
    )
    .unwrap();
    assert_eq!(get.url, "https://192.168.1.9/api/v1/mgmt/config/get");
    assert_eq!(get.body.unwrap(), "{\"data\":[\"voIpProt.SIP.enable\"]}");
    let put = run_cfg_getset(
        &handler,
        ConfigSetGetSubcommand::Put { key: "up.backlight".to_string(), value: "3".to_string() },
    )
    .unwrap();
    assert_eq!(put.url, "https://192.168.1.9/api/v1/mgmt/config/set");
    assert_eq!(put.body.unwrap(), "{\"data\":{\"up.backlight\":\"3\"}}");
    let plan = run(cli(Commands::Rest {
        subcommand: RestCommands::Mgmt {
            subcommand: MgmtCommands::Config {
                subcommand: ConfigSetGetSubcommand::Get { value: "x".to_string() },
            },
        },
    }))
    .unwrap();
    match plan {
        Plan::Rest(Some(request)) => assert_eq!(request.body.unwrap(), "{\"data\":[\"x\"]}"),
        other => panic!("unexpected plan: {:?}", other),
    }
}
