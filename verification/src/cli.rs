//! Composable command descriptors: a binary plus its arguments, and the
//! builders that wrap a descriptor for remote execution over a secured
//! shell or for file transfer. The descriptor is plain data; spawning it
//! is left to the process layer outside the library.
use crate::text::{push_char, spec_dec_digits, u64_to_dec};
use vstd::prelude::*;
use vstd::string::StringExecFns;

verus! {

/// Value of one command-line option.
#[derive(Debug, Clone)]
pub enum OptVal {
    /// A single token.
    Normal(String),
    /// Several values: joined into one token by the separator, or passed
    /// as separate tokens when there is none.
    Multiple { vals: Vec<String>, sp: Option<char> },
}

/// One argument of a command line.
#[derive(Debug, Clone)]
pub enum Arg {
    /// A bare token.
    Flag(String),
    /// An option name followed by its value.
    Opt(String, OptVal),
}

/// A command descriptor: the binary to run and its arguments in order.
#[derive(Debug, Clone)]
pub struct App {
    pub bin: String,
    pub args: Vec<Arg>,
}

/// The given tokens joined into one by the separator.
pub open spec fn spec_join(vals: Seq<Seq<char>>, sp: char) -> Seq<char>
    decreases vals.len(),
{
    if vals.len() == 0 {
        Seq::<char>::empty()
    } else if vals.len() == 1 {
        vals[0]
    } else {
        vals[0] + seq![sp] + spec_join(vals.skip(1), sp)
    }
}

impl OptVal {
    /// The argv tokens this value denotes.
    pub open spec fn spec_tokens(self) -> Seq<Seq<char>> {
        match self {
            OptVal::Normal(s) => seq![s@],
            OptVal::Multiple { vals, sp } => match sp {
                Option::Some(c) => seq![spec_join(vals.deep_view(), c)],
                Option::None => vals.deep_view(),
            },
        }
    }

    pub fn normal(s: &str) -> (r: OptVal)
        ensures
            r.spec_tokens() == seq![s@],
    {
        let r = OptVal::Normal(String::from_str(s));
        proof {
            assert(r.spec_tokens() =~= seq![s@]);
        }
        r
    }

    pub fn multiple(vals: Vec<String>, sp: Option<char>) -> (r: OptVal)
        ensures
            r == (OptVal::Multiple { vals, sp }),
    {
        OptVal::Multiple { vals, sp }
    }

    /// Render the value into argv tokens.
    pub fn render(&self) -> (r: Vec<String>)
        ensures
            r.deep_view() == self.spec_tokens(),
    {
        match self {
            OptVal::Normal(s) => {
                let mut out: Vec<String> = Vec::new();
                out.push(s.clone());
                proof {
                    assert(out.deep_view() =~~= self.spec_tokens());
                }
                out
            },
            OptVal::Multiple { vals, sp } => match sp {
                Option::Some(c) => {
                    let joined = join_from(vals, 0, *c);
                    proof {
                        assert(vals.deep_view().skip(0) =~= vals.deep_view());
                    }
                    let mut out: Vec<String> = Vec::new();
                    out.push(joined);
                    proof {
                        assert(out.deep_view() =~~= self.spec_tokens());
                    }
                    out
                },
                Option::None => {
                    let mut out: Vec<String> = Vec::new();
                    let mut i: usize = 0;
                    while i < vals.len()
                        invariant
                            i <= vals@.len(),
                            out.deep_view() == vals.deep_view().take(i as int),
                        decreases vals@.len() - i,
                    {
                        let ghost prev = out.deep_view();
                        out.push(vals[i].clone());
                        proof {
                            assert(out.deep_view() =~~= prev.push(vals@[i as int]@));
                            assert(prev.push(vals@[i as int]@) =~~= vals.deep_view().take(i + 1));
                        }
                        i = i + 1;
                    }
                    proof {
                        assert(vals.deep_view().take(vals@.len() as int) =~= vals.deep_view());
                        assert(out.deep_view() =~~= self.spec_tokens());
                    }
                    out
                },
            },
        }
    }
}

/// The tokens joined from index `i` on, matching `spec_join` of the suffix.
fn join_from(vals: &Vec<String>, i: usize, sp: char) -> (r: String)
    requires
        i <= vals@.len(),
    ensures
        r@ == spec_join(vals.deep_view().skip(i as int), sp),
    decreases vals@.len() - i,
{
    if i == vals.len() {
        proof {
            assert(vals.deep_view().skip(i as int) =~= Seq::<Seq<char>>::empty());
        }
        String::new()
    } else if i + 1 == vals.len() {
        let r = vals[i].clone();
        proof {
            let d = vals.deep_view().skip(i as int);
            assert(d.len() == 1);
            assert(d[0] == vals@[i as int]@);
        }
        r
    } else {
        let mut s = vals[i].clone();
        push_char(&mut s, sp);
        let rest = join_from(vals, i + 1, sp);
        let r = s.concat(rest.as_str());
        proof {
            let d = vals.deep_view().skip(i as int);
            assert(d.len() >= 2);
            assert(d[0] == vals@[i as int]@);
            assert(d.skip(1) =~= vals.deep_view().skip(i + 1));
            assert(r@ =~= d[0] + seq![sp] + spec_join(d.skip(1), sp));
        }
        r
    }
}

impl Arg {
    /// The argv tokens this argument denotes.
    pub open spec fn spec_tokens(self) -> Seq<Seq<char>> {
        match self {
            Arg::Flag(s) => seq![s@],
            Arg::Opt(name, v) => seq![name@] + v.spec_tokens(),
        }
    }

    pub fn new_flag(s: &str) -> (r: Arg)
        ensures
            r.spec_tokens() == seq![s@],
    {
        let r = Arg::Flag(String::from_str(s));
        proof {
            assert(r.spec_tokens() =~= seq![s@]);
        }
        r
    }

    pub fn new_opt(name: &str, val: OptVal) -> (r: Arg)
        ensures
            r.spec_tokens() == seq![name@] + val.spec_tokens(),
    {
        let r = Arg::Opt(String::from_str(name), val);
        proof {
            assert(r.spec_tokens() =~= seq![name@] + val.spec_tokens());
        }
        r
    }

    /// Render the argument into argv tokens.
    pub fn render(&self) -> (r: Vec<String>)
        ensures
            r.deep_view() == self.spec_tokens(),
    {
        match self {
            Arg::Flag(s) => {
                let mut out: Vec<String> = Vec::new();
                out.push(s.clone());
                proof {
                    assert(out.deep_view() =~~= self.spec_tokens());
                }
                out
            },
            Arg::Opt(name, val) => {
                let mut out: Vec<String> = Vec::new();
                out.push(name.clone());
                let mut rest = val.render();
                out.append(&mut rest);
                proof {
                    assert(out.deep_view() =~~= self.spec_tokens());
                }
                out
            },
        }
    }
}

/// The argv tokens of a whole argument list, in order.
pub open spec fn spec_args_tokens(args: Seq<Arg>) -> Seq<Seq<char>>
    decreases args.len(),
{
    if args.len() == 0 {
        Seq::<Seq<char>>::empty()
    } else {
        args[0].spec_tokens() + spec_args_tokens(args.skip(1))
    }
}

/// Appending one argument appends its tokens.
proof fn lemma_args_tokens_snoc(args: Seq<Arg>, a: Arg)
    ensures
        spec_args_tokens(args.push(a)) == spec_args_tokens(args) + a.spec_tokens(),
    decreases args.len(),
{
    if args.len() == 0 {
        assert(args.push(a).skip(1) =~= Seq::<Arg>::empty());
        assert(spec_args_tokens(Seq::<Arg>::empty()) =~= Seq::<Seq<char>>::empty());
        assert(args.push(a)[0] == a);
        assert(spec_args_tokens(args.push(a)) == a.spec_tokens() + spec_args_tokens(
            args.push(a).skip(1)));
        assert(spec_args_tokens(args.push(a)) =~= spec_args_tokens(args) + a.spec_tokens());
    } else {
        assert(args.push(a)[0] == args[0]);
        assert(args.push(a).skip(1) =~= args.skip(1).push(a));
        lemma_args_tokens_snoc(args.skip(1), a);
        assert(spec_args_tokens(args.push(a)) == args[0].spec_tokens() + spec_args_tokens(
            args.push(a).skip(1)));
        assert(spec_args_tokens(args) == args[0].spec_tokens() + spec_args_tokens(args.skip(1)));
        assert(spec_args_tokens(args.push(a)) =~= spec_args_tokens(args) + a.spec_tokens());
    }
}

impl App {
    /// The argv this descriptor denotes, binary excluded.
    pub open spec fn spec_tokens(self) -> Seq<Seq<char>> {
        spec_args_tokens(self.args@)
    }

    pub fn new(bin: &str) -> (a: App)
        ensures
            a.bin@ == bin@,
            a.args@.len() == 0,
            a.spec_tokens() == Seq::<Seq<char>>::empty(),
    {
        let a = App { bin: String::from_str(bin), args: Vec::new() };
        proof {
            assert(a.spec_tokens() =~= Seq::<Seq<char>>::empty());
        }
        a
    }

    /// Append one argument.
    pub fn arg(self, a: Arg) -> (r: App)
        ensures
            r.bin == self.bin,
            r.args@ == self.args@.push(a),
            r.spec_tokens() == self.spec_tokens() + a.spec_tokens(),
    {
        let App { bin, mut args } = self;
        proof {
            lemma_args_tokens_snoc(args@, a);
        }
        args.push(a);
        App { bin, args }
    }

    /// Render the whole argument list into argv tokens, in order.
    pub fn tokens(&self) -> (r: Vec<String>)
        ensures
            r.deep_view() == self.spec_tokens(),
    {
        let mut out: Vec<String> = Vec::new();
        let mut i: usize = 0;
        proof {
            assert(self.args@.skip(0) =~= self.args@);
            assert(out.deep_view() + spec_args_tokens(self.args@) =~= spec_args_tokens(self.args@));
        }
        while i < self.args.len()
            invariant
                i <= self.args@.len(),
                out.deep_view() + spec_args_tokens(self.args@.skip(i as int)) == self.spec_tokens(),
            decreases self.args@.len() - i,
        {
            let mut rendered = self.args[i].render();
            let ghost prev_out = out.deep_view();
            let ghost prev_rendered = rendered.deep_view();
            proof {
                let rest = self.args@.skip(i as int);
                assert(rest[0] == self.args@[i as int]);
                assert(rest.skip(1) =~= self.args@.skip(i + 1));
                assert((prev_out + prev_rendered) + spec_args_tokens(self.args@.skip(i + 1))
                    =~= prev_out + spec_args_tokens(rest));
            }
            out.append(&mut rendered);
            proof {
                assert(out.deep_view() =~~= prev_out + prev_rendered);
            }
            i = i + 1;
        }
        proof {
            assert(self.args@.skip(self.args@.len() as int) =~= Seq::<Arg>::empty());
            assert(out.deep_view() + Seq::<Seq<char>>::empty() =~= out.deep_view());
        }
        out
    }
}

/// The fixed options of the secured remote shell: no host-key
/// verification, non-interactive batch mode, identity-file authentication
/// only, bounded connection timeout.
pub open spec fn spec_ssh_fixed_tokens() -> Seq<Seq<char>> {
    seq![
        "-F"@,
        "/dev/null"@,
        "-o"@,
        "UserKnownHostsFile=/dev/null"@,
        "-o"@,
        "BatchMode=yes"@,
        "-o"@,
        "IdentitiesOnly=yes"@,
        "-o"@,
        "StrictHostKeyChecking=no"@,
        "-o"@,
        "ConnectTimeout=3s"@,
    ]
}

/// The argv of a remote execution: the fixed options, the forwarded port,
/// the identity file, the target account, then the wrapped command.
pub open spec fn spec_ssh_tokens(
    key: Seq<char>,
    user: Seq<char>,
    addr: Seq<char>,
    port: u16,
    bin: Seq<char>,
    args_tokens: Seq<Seq<char>>,
) -> Seq<Seq<char>> {
    spec_ssh_fixed_tokens() + seq![
        "-p"@,
        spec_dec_digits(port as nat),
        "-i"@,
        key,
        user + "@"@ + addr,
        bin,
    ] + args_tokens
}

/// Wrap a command descriptor for remote execution over the secured shell.
pub fn ssh_app(key: &str, user: &str, addr: &str, port: u16, app: App) -> (r: App)
    ensures
        r.bin@ == "ssh"@,
        r.spec_tokens() == spec_ssh_tokens(key@, user@, addr@, port, app.bin@, app.spec_tokens()),
{
    let mut ssh = App::new("ssh").arg(Arg::new_opt("-F", OptVal::normal("/dev/null"))).arg(
        Arg::new_opt("-o", OptVal::normal("UserKnownHostsFile=/dev/null")),
    ).arg(Arg::new_opt("-o", OptVal::normal("BatchMode=yes"))).arg(
        Arg::new_opt("-o", OptVal::normal("IdentitiesOnly=yes")),
    ).arg(Arg::new_opt("-o", OptVal::normal("StrictHostKeyChecking=no"))).arg(
        Arg::new_opt("-o", OptVal::normal("ConnectTimeout=3s")),
    ).arg(Arg::new_opt("-p", OptVal::Normal(u64_to_dec(port as u64)))).arg(
        Arg::new_opt("-i", OptVal::normal(key)),
    ).arg(Arg::Flag(String::from_str(user).concat("@").concat(addr))).arg(
        Arg::new_flag(app.bin.as_str()),
    );
    let ghost base = ssh.spec_tokens();
    proof {
        assert(base =~= spec_ssh_fixed_tokens() + seq![
            "-p"@,
            spec_dec_digits(port as nat),
            "-i"@,
            key@,
            user@ + "@"@ + addr@,
            app.bin@,
        ]);
    }
    let ts = app.tokens();
    let mut i: usize = 0;
    proof {
        assert(ts.deep_view().take(0) =~= Seq::<Seq<char>>::empty());
        assert(base + Seq::<Seq<char>>::empty() =~= base);
    }
    while i < ts.len()
        invariant
            i <= ts@.len(),
            ssh.bin@ == "ssh"@,
            ts.deep_view() == app.spec_tokens(),
            ssh.spec_tokens() == base + ts.deep_view().take(i as int),
        decreases ts@.len() - i,
    {
        ssh = ssh.arg(Arg::Flag(ts[i].clone()));
        proof {
            assert(ts.deep_view().take(i as int).push(ts@[i as int]@) =~= ts.deep_view().take(
                i + 1));
            assert(base + ts.deep_view().take(i as int) + seq![ts@[i as int]@] =~= base
                + ts.deep_view().take(i + 1));
        }
        i = i + 1;
    }
    proof {
        assert(ts.deep_view().take(ts@.len() as int) =~= ts.deep_view());
        assert(base + app.spec_tokens() =~= spec_ssh_tokens(
            key@,
            user@,
            addr@,
            port,
            app.bin@,
            app.spec_tokens(),
        ));
    }
    ssh
}

/// The fixed options of the secure file transfer: the same hardening as
/// the remote shell, without the connection timeout.
pub open spec fn spec_scp_fixed_tokens() -> Seq<Seq<char>> {
    seq![
        "-F"@,
        "/dev/null"@,
        "-o"@,
        "UserKnownHostsFile=/dev/null"@,
        "-o"@,
        "BatchMode=yes"@,
        "-o"@,
        "IdentitiesOnly=yes"@,
        "-o"@,
        "StrictHostKeyChecking=no"@,
    ]
}

/// The argv of one file transfer into the guest.
pub open spec fn spec_scp_tokens(
    key: Seq<char>,
    user: Seq<char>,
    addr: Seq<char>,
    port: u16,
    local: Seq<char>,
    remote_path: Seq<char>,
) -> Seq<Seq<char>> {
    spec_scp_fixed_tokens() + seq![
        "-P"@,
        spec_dec_digits(port as nat),
        "-i"@,
        key,
        local,
        user + "@"@ + addr + ":"@ + remote_path,
    ]
}

/// Build the file-transfer invocation that copies a local file to a path
/// inside the guest.
pub fn scp_app(key: &str, user: &str, addr: &str, port: u16, local: &str, remote_path: &str) -> (r:
    App)
    ensures
        r.bin@ == "scp"@,
        r.spec_tokens() == spec_scp_tokens(key@, user@, addr@, port, local@, remote_path@),
{
    let target = String::from_str(user).concat("@").concat(addr).concat(":").concat(remote_path);
    let scp = App::new("scp").arg(Arg::new_opt("-F", OptVal::normal("/dev/null"))).arg(
        Arg::new_opt("-o", OptVal::normal("UserKnownHostsFile=/dev/null")),
    ).arg(Arg::new_opt("-o", OptVal::normal("BatchMode=yes"))).arg(
        Arg::new_opt("-o", OptVal::normal("IdentitiesOnly=yes")),
    ).arg(Arg::new_opt("-o", OptVal::normal("StrictHostKeyChecking=no"))).arg(
        Arg::new_opt("-P", OptVal::Normal(u64_to_dec(port as u64))),
    ).arg(Arg::new_opt("-i", OptVal::normal(key))).arg(Arg::new_flag(local)).arg(Arg::Flag(target));
    proof {
        assert(scp.spec_tokens() =~= spec_scp_tokens(key@, user@, addr@, port, local@,
            remote_path@));
    }
    scp
}

} // verus!
