use ccc_lib::cmd::{CmdExeArgs, CmdSpec, Command, OpnSepc, Option, ValueSpec};

type FnCmder = fn(cmd_args: CmdExeArgs) -> Result<i32, String>;

fn default_cmder(cmd_args: CmdExeArgs) -> Result<i32, String> {
    println!("{:?}", cmd_args);
    Ok(0)
}

fn build_commands() -> Command<FnCmder> {
    let mut rtcmd = Command::new(
        CmdSpec {
            name: "ccc",
            title: "canada computer compenont",
            usage: "ccc -options sub-command",
            vspec: ValueSpec::Maybe,
            desc: "",
        },
        default_cmder as FnCmder,
    );
    rtcmd.reg_option(OpnSepc {
        short: "h",
        long: "help",
        title: "help information about application",
        vspec: ValueSpec::Nothing,
    });
    rtcmd.reg_option(OpnSepc {
        short: "",
        long: "dir",
        title: "assign testcase base direction",
        vspec: ValueSpec::Must,
    });
    let runcmd = rtcmd.reg_subcmd(
        CmdSpec {
            name: "run",
            title: "run ccc question solvment",
            usage: "run 03s3 -t tc1",
            desc: "",
            vspec: ValueSpec::Maybe,
        },
        default_cmder,
    );
    runcmd.reg_option(OpnSepc {
        short: "t",
        long: "testcase",
        title: "testcase file name",
        vspec: ValueSpec::Must,
    });
    let searchcmd = rtcmd.reg_subcmd(
        CmdSpec {
            name: "search",
            title: "Search ccc question",
            usage: "ccc search 03s3",
            desc: "",
            vspec: ValueSpec::Must,
        },
        default_cmder,
    );
    searchcmd.reg_option(OpnSepc {
        short: "i",
        long: "letter-case",
        title: "Search by letter case sentitive",
        vspec: ValueSpec::Nothing,
    });
    rtcmd
}

#[test]
fn cmd_specification() {
    let rtcmd = build_commands();
    let doc = rtcmd.make_doc();
    assert_eq!(doc[0], "--------------------Brife Info--------------------");
    assert_eq!(doc[1], "    Name : ccc");
    assert_eq!(doc[2], "   Title : canada computer compenont");
    assert_eq!(doc[3], "   Usage : ccc -options sub-command");
    assert_eq!(doc[4], "   Value : [VALUE]");
    assert_eq!(doc[5], "---------------------Options----------------------");
    assert_eq!(
        doc[6],
        "-h   --help            help information about application"
    );
    assert_eq!(
        doc[7],
        "     --dir      VALUE  assign testcase base direction"
    );
    assert_eq!(doc[8], "-------------------Sub Commands-------------------");
    assert_eq!(doc[9], "       run [VALUE] run ccc question solvment");
    assert_eq!(doc[10], "    search VALUE  Search ccc question");

    let doc = rtcmd.subcmds[0].make_doc();
    assert_eq!(doc[0], "--------------------Brife Info--------------------");
    assert_eq!(doc[1], "    Name : run");
    assert_eq!(doc[2], "   Title : run ccc question solvment");
    assert_eq!(doc[3], "   Usage : run 03s3 -t tc1");
    assert_eq!(doc[4], "   Value : [VALUE]");
    assert_eq!(doc[5], "---------------------Options----------------------");
    assert_eq!(doc[6], "-t   --testcase VALUE  testcase file name");
}

#[test]
fn cmd_exec() {
    let rtcmd = build_commands();
    assert_eq!(rtcmd.subcmds.len(), 2);
    assert_eq!(rtcmd.options.len(), 2);
}

#[test]
fn cmd_doc_lengths() {
    let rtcmd = build_commands();
    assert_eq!(rtcmd.make_doc().len(), 11);
    assert_eq!(rtcmd.subcmds[0].make_doc().len(), 7);
    assert_eq!(rtcmd.subcmds[1].make_doc().len(), 7);
}

#[test]
fn cmd_doc_with_description() {
    let cmd = Command::new(
        CmdSpec {
            name: "one",
            title: "a command",
            usage: "one",
            desc: "all there is to say",
            vspec: ValueSpec::Nothing,
        },
        default_cmder as FnCmder,
    );
    let doc = cmd.make_doc();
    assert_eq!(doc.len(), 6);
    assert_eq!(doc[4], "   Value : ");
    assert_eq!(doc[5], "    Desc : all there is to say");
}

#[test]
fn value_spec_doc() {
    assert_eq!(ValueSpec::Must.doc(), "VALUE");
    assert_eq!(ValueSpec::Maybe.doc(), "[VALUE]");
    assert_eq!(ValueSpec::Nothing.doc(), "");
}

#[test]
fn option_and_command_match() {
    let opt = Option {
        spec: OpnSepc {
            short: "h",
            long: "help",
            title: "help",
            vspec: ValueSpec::Nothing,
        },
    };
    assert!(opt.try_match("h"));
    assert!(opt.try_match("help"));
    assert!(!opt.try_match("hel"));
    assert!(!opt.try_match(""));
    let rtcmd = build_commands();
    assert!(rtcmd.try_match("ccc"));
    assert!(!rtcmd.try_match("cc"));
    assert!(rtcmd.subcmds[1].try_match("search"));
}

#[test]
fn command_debug_hides_runner() {
    let cmd = Command::new(
        CmdSpec {
            name: "one",
            title: "",
            usage: "",
            desc: "",
            vspec: ValueSpec::Nothing,
        },
        default_cmder as FnCmder,
    );
    let shown = format!("{:?}", cmd);
    assert!(shown.contains("exec_fn: ..."));
}
