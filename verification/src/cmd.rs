//! The description of a command line: a command with its options and sub-commands,
//! and the help text made from it.
//!
//! ```text
//! command := name [options] [value] [sub-command]
//! option  := flag [value]
//! flag    := -short | --long
//! ```

use crate::text::{
    join, pad_both, pad_both_seq, pad_end, pad_end_seq, pad_start, pad_start_seq, same_text,
};
use debug_ignore::DebugIgnore;
use vstd::prelude::*;
use vstd::string::*;

verus! {

/// The wrapper of the `debug_ignore` crate: it carries a value and keeps it out of
/// `Debug` output. Nothing is known of what it holds.
#[verifier::external_type_specification]
#[verifier::external_body]
#[verifier::reject_recursive_types(T)]
pub struct ExDebugIgnore<T: ?Sized>(DebugIgnore<T>);

/// Whether a command or an option takes a value.
#[derive(Debug, Copy, Clone)]
pub enum ValueSpec {
    Must,
    Maybe,
    Nothing,
}

/// What a command is: its name, a title of one sentence, an example of its use, a
/// full description, and whether it takes a value.
#[derive(Debug, Copy, Clone)]
pub struct CmdSpec<'a> {
    pub name: &'a str,
    pub title: &'a str,
    pub usage: &'a str,
    pub desc: &'a str,
    pub vspec: ValueSpec,
}

/// What an option is: its short and its long flag (either may be empty), a title, and
/// whether it takes a value.
#[derive(Debug, Clone, Copy)]
pub struct OpnSepc<'a> {
    pub short: &'a str,
    pub long: &'a str,
    pub title: &'a str,
    pub vspec: ValueSpec,
}

/// What a command is run with: the command, the options given, and the value.
#[derive(Debug, Clone)]
pub struct CmdExeArgs<'a> {
    pub cmd: &'a CmdSpec<'a>,
    pub opns: Vec<&'a OpnSepc<'a>>,
    pub token: &'a str,
}

/// An option of a command.
#[derive(Debug, Clone)]
pub struct Option {
    pub spec: OpnSepc<'static>,
}

/// A command: its description, its options, its sub-commands, and what runs it.
/// `F` is the type of what runs it; it is kept out of `Debug` output.
#[derive(Debug)]
#[verifier::reject_recursive_types(F)]
pub struct Command<F> {
    pub spec: CmdSpec<'static>,
    pub options: Vec<Option>,
    pub subcmds: Vec<Command<F>>,
    pub exec_fn: DebugIgnore<F>,
}

/// The width of a heading line of the help text.
pub const DOC_WIDTH: usize = 50;

impl ValueSpec {
    /// How the help text shows the value.
    pub open spec fn doc_text(self) -> Seq<char> {
        match self {
            ValueSpec::Must => seq!['V', 'A', 'L', 'U', 'E'],
            ValueSpec::Maybe => seq!['[', 'V', 'A', 'L', 'U', 'E', ']'],
            ValueSpec::Nothing => Seq::empty(),
        }
    }

    /// How the help text shows the value: `VALUE` where one must follow, `[VALUE]`
    /// where one may, nothing where none does.
    pub fn doc(&self) -> (s: &'static str)
        ensures
            s@ == self.doc_text(),
    {
        proof {
            reveal_strlit("VALUE");
            reveal_strlit("[VALUE]");
            reveal_strlit("");
        }
        let s = match self {
            ValueSpec::Must => "VALUE",
            ValueSpec::Maybe => "[VALUE]",
            ValueSpec::Nothing => "",
        };
        assert(s@ =~= self.doc_text());
        s
    }
}

/// A heading of the help text: the title centred between dashes.
pub open spec fn heading_line(title: Seq<char>) -> Seq<char> {
    pad_both_seq(title, DOC_WIDTH as nat, '-')
}

/// A line of the help text that names a field: the label to the right in eight
/// characters, then ` : ` and the value.
pub open spec fn field_line(label: Seq<char>, value: Seq<char>) -> Seq<char> {
    pad_start_seq(label, 8, ' ') + " : "@ + value
}

/// A flag as the help text shows it: the dashes and the name, or nothing for an
/// empty name.
pub open spec fn flag_text(name: Seq<char>, dashes: Seq<char>) -> Seq<char> {
    if name.len() == 0 {
        Seq::empty()
    } else {
        dashes + name
    }
}

/// The line of the help text for an option: short flag, long flag and value in
/// columns of 4, 10 and 6 characters, then the title.
pub open spec fn option_line(o: OpnSepc<'static>) -> Seq<char> {
    pad_end_seq(flag_text(o.short@, "-"@), 4, ' ') + " "@ + pad_end_seq(
        flag_text(o.long@, "--"@),
        10,
        ' ',
    ) + " "@ + pad_end_seq(o.vspec.doc_text(), 6, ' ') + " "@ + o.title@
}

/// The line of the help text for a sub-command: the name to the right in ten
/// characters, the value in six, then the title.
pub open spec fn subcmd_line(c: CmdSpec<'static>) -> Seq<char> {
    pad_start_seq(c.name@, 10, ' ') + " "@ + pad_end_seq(c.vspec.doc_text(), 6, ' ') + " "@ + c.title@
}

/// The first part of the help text: a heading, then name, title, usage and value, and
/// the description where there is one.
pub open spec fn brief_lines(c: CmdSpec<'static>) -> Seq<Seq<char>> {
    let head = seq![
        heading_line("Brife Info"@),
        field_line("Name"@, c.name@),
        field_line("Title"@, c.title@),
        field_line("Usage"@, c.usage@),
        field_line("Value"@, c.vspec.doc_text()),
    ];
    if c.desc@.len() > 0 {
        head.push(field_line("Desc"@, c.desc@))
    } else {
        head
    }
}

/// The part of the help text on the options: nothing without options, else a heading
/// and a line for each option.
pub open spec fn option_lines(options: Seq<Option>) -> Seq<Seq<char>> {
    if options.len() == 0 {
        Seq::empty()
    } else {
        seq![heading_line("Options"@)] + Seq::new(
            options.len(),
            |i: int| option_line(options[i].spec),
        )
    }
}

/// The part of the help text on the sub-commands: nothing without sub-commands, else a
/// heading and a line for each.
pub open spec fn subcmd_lines(specs: Seq<CmdSpec<'static>>) -> Seq<Seq<char>> {
    if specs.len() == 0 {
        Seq::empty()
    } else {
        seq![
            heading_line("Sub Commands"@),
        ] + Seq::new(specs.len(), |i: int| subcmd_line(specs[i]))
    }
}

/// The views of a list of lines.
pub open spec fn line_texts(lines: Seq<String>) -> Seq<Seq<char>> {
    lines.map_values(|s: String| s@)
}

/// Wraps what runs a command in `DebugIgnore`, by its `From` impl, which stores the
/// value as it is. The contract claims nothing of the result.
#[verifier::external_body]
fn shield<F>(exec: F) -> DebugIgnore<F> {
    exec.into()
}

fn flag(name: &str, dashes: &str) -> (out: String)
    ensures
        out@ == flag_text(name@, dashes@),
{
    if name.is_empty() {
        String::new()
    } else {
        join(dashes, name)
    }
}

fn heading(title: &str) -> (out: String)
    ensures
        out@ == heading_line(title@),
{
    proof {
        reveal_strlit("-");
    }
    pad_both(title, DOC_WIDTH, "-")
}

fn field(label: &str, value: &str) -> (out: String)
    ensures
        out@ == field_line(label@, value@),
{
    proof {
        reveal_strlit(" ");
        reveal_strlit(" : ");
    }
    let mut out = pad_start(label, 8, " ");
    out.append(" : ");
    out.append(value);
    assert(out@ =~= field_line(label@, value@));
    out
}

fn option_doc(o: &OpnSepc<'static>) -> (out: String)
    ensures
        out@ == option_line(*o),
{
    proof {
        reveal_strlit(" ");
        reveal_strlit("-");
        reveal_strlit("--");
    }
    let short = flag(o.short, "-");
    let long = flag(o.long, "--");
    let mut out = pad_end(short.as_str(), 4, " ");
    out.append(" ");
    let long_col = pad_end(long.as_str(), 10, " ");
    out.append(long_col.as_str());
    out.append(" ");
    let value_col = pad_end(o.vspec.doc(), 6, " ");
    out.append(value_col.as_str());
    out.append(" ");
    out.append(o.title);
    assert(out@ =~= option_line(*o));
    out
}

fn subcmd_doc(c: &CmdSpec<'static>) -> (out: String)
    ensures
        out@ == subcmd_line(*c),
{
    proof {
        reveal_strlit(" ");
    }
    let mut out = pad_start(c.name, 10, " ");
    out.append(" ");
    let value_col = pad_end(c.vspec.doc(), 6, " ");
    out.append(value_col.as_str());
    out.append(" ");
    out.append(c.title);
    assert(out@ =~= subcmd_line(*c));
    out
}

impl Option {
    /// Whether `arg` is the short or the long flag of the option.
    pub fn try_match(&self, arg: &str) -> (r: bool)
        ensures
            r == (self.spec.short@ == arg@ || self.spec.long@ == arg@),
    {
        same_text(self.spec.short, arg) || same_text(self.spec.long, arg)
    }
}

impl<F> Command<F> {
    /// The descriptions of the sub-commands, in order.
    pub open spec fn subcmd_specs(&self) -> Seq<CmdSpec<'static>> {
        Seq::new(self.subcmds@.len(), |i: int| self.subcmds@[i].spec)
    }

    /// The help text of the command, line by line: the command itself, then its
    /// options, then its sub-commands.
    pub open spec fn doc_text(&self) -> Seq<Seq<char>> {
        brief_lines(self.spec) + option_lines(self.options@) + subcmd_lines(self.subcmd_specs())
    }

    /// A command without options and sub-commands, run by `exec`.
    pub fn new(sepc: CmdSpec<'static>, exec: F) -> (c: Command<F>)
        ensures
            c.spec == sepc,
            c.options@.len() == 0,
            c.subcmds@.len() == 0,
    {
        Command { spec: sepc, options: Vec::new(), subcmds: Vec::new(), exec_fn: shield(exec) }
    }

    /// Whether `arg` is the name of the command.
    pub fn try_match(&self, arg: &str) -> (r: bool)
        ensures
            r == (self.spec.name@ == arg@),
    {
        same_text(self.spec.name, arg)
    }

    /// Adds a sub-command behind those the command has, and hands it out so that it can
    /// be given options and sub-commands of its own.
    pub fn reg_subcmd(&mut self, spec: CmdSpec<'static>, exec: F) -> (sub: &mut Command<F>)
        ensures
            sub.spec == spec,
            sub.options@.len() == 0,
            sub.subcmds@.len() == 0,
            final(self).subcmds@ == old(self).subcmds@.push(*final(sub)),
            final(self).spec == old(self).spec,
            final(self).options == old(self).options,
    {
        self.subcmds.push(Command::new(spec, exec));
        let n = self.subcmds.len();
        assert(self.subcmds@.update(n - 1, self.subcmds@[n - 1]) =~= self.subcmds@);
        let ghost before = self.subcmds@;
        let sub = &mut self.subcmds[n - 1];
        proof {
            assert(forall|c: Command<F>| #[trigger]
                before.update(n - 1, c) =~= old(self).subcmds@.push(c));
        }
        sub
    }

    /// Adds an option behind those the command has, and hands it out.
    pub fn reg_option(&mut self, spec: OpnSepc<'static>) -> (opt: &Option)
        ensures
            *opt == (Option { spec }),
            final(self).options@ == old(self).options@.push(Option { spec }),
            final(self).spec == old(self).spec,
            final(self).subcmds == old(self).subcmds,
    {
        self.options.push(Option { spec });
        let n = self.options.len();
        &self.options[n - 1]
    }

    /// Writes the help text of the command.
    pub fn make_doc(&self) -> (doc: Vec<String>)
        ensures
            line_texts(doc@) == self.doc_text(),
    {
        proof {
            reveal_strlit("Brife Info");
            reveal_strlit("Name");
            reveal_strlit("Title");
            reveal_strlit("Usage");
            reveal_strlit("Value");
            reveal_strlit("Desc");
            reveal_strlit("Options");
            reveal_strlit("Sub Commands");
        }
        let mut doc: Vec<String> = Vec::new();
        doc.push(heading("Brife Info"));
        doc.push(field("Name", self.spec.name));
        doc.push(field("Title", self.spec.title));
        doc.push(field("Usage", self.spec.usage));
        doc.push(field("Value", self.spec.vspec.doc()));
        if !self.spec.desc.is_empty() {
            doc.push(field("Desc", self.spec.desc));
        }
        assert(line_texts(doc@) =~= brief_lines(self.spec));

        let ghost brief = line_texts(doc@);
        let n = self.options.len();
        if n > 0 {
            doc.push(heading("Options"));
            let mut i: usize = 0;
            while i < n
                invariant
                    i <= n,
                    n == self.options@.len(),
                    line_texts(doc@) == brief + seq![
                        heading_line("Options"@),
                    ] + Seq::new(i as nat, |j: int| option_line(self.options@[j].spec)),
                decreases n - i,
            {
                let ghost lines = line_texts(doc@);
                let ghost rows = Seq::new(i as nat, |j: int| option_line(self.options@[j].spec));
                doc.push(option_doc(&self.options[i].spec));
                assert(line_texts(doc@) =~= lines.push(option_line(self.options@[i as int].spec)));
                i += 1;
                assert(Seq::new(i as nat, |j: int| option_line(self.options@[j].spec)) =~= rows.push(
                    option_line(self.options@[i - 1].spec),
                ));
                assert(line_texts(doc@) =~= brief + seq![
                    heading_line("Options"@),
                ] + Seq::new(i as nat, |j: int| option_line(self.options@[j].spec)));
            }
        }
        assert(line_texts(doc@) =~= brief + option_lines(self.options@));

        let ghost upper = line_texts(doc@);
        let m = self.subcmds.len();
        if m > 0 {
            doc.push(heading("Sub Commands"));
            let mut i: usize = 0;
            while i < m
                invariant
                    i <= m,
                    m == self.subcmds@.len(),
                    line_texts(doc@) == upper + seq![
                        heading_line(
                            "Sub Commands"@,
                        ),
                    ] + Seq::new(i as nat, |j: int| subcmd_line(self.subcmds@[j].spec)),
                decreases m - i,
            {
                let ghost lines = line_texts(doc@);
                let ghost rows = Seq::new(i as nat, |j: int| subcmd_line(self.subcmds@[j].spec));
                doc.push(subcmd_doc(&self.subcmds[i].spec));
                assert(line_texts(doc@) =~= lines.push(subcmd_line(self.subcmds@[i as int].spec)));
                i += 1;
                assert(Seq::new(i as nat, |j: int| subcmd_line(self.subcmds@[j].spec)) =~= rows.push(
                    subcmd_line(self.subcmds@[i - 1].spec),
                ));
                assert(line_texts(doc@) =~= upper + seq![
                    heading_line(
                        "Sub Commands"@,
                    ),
                ] + Seq::new(i as nat, |j: int| subcmd_line(self.subcmds@[j].spec)));
            }
        }
        assert(line_texts(doc@) =~= upper + subcmd_lines(self.subcmd_specs()));
        doc
    }
}

} // verus!
