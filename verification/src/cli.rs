//! Command invocations: a binary name plus an ordered sequence of
//! arguments. An argument is either a bare flag or a named option whose
//! value is a single string or several strings joined by an optional
//! separator. Appending to an invocation never reorders what is already
//! there, and cloning then appending leaves the original untouched.

use vstd::prelude::*;

use crate::text::push_char;

verus! {

/// Mathematical model of an option value.
#[verifier::ext_equal]
pub enum OptValV {
    Normal(Seq<char>),
    Multiple(Seq<Seq<char>>, Option<char>),
}

/// Mathematical model of one argument.
#[verifier::ext_equal]
pub enum ArgV {
    Flag(Seq<char>),
    Opt(Seq<char>, OptValV),
}

/// Mathematical model of an invocation.
#[verifier::ext_equal]
pub struct AppV {
    pub bin: Seq<char>,
    pub args: Seq<ArgV>,
}

/// The value of a named option.
pub enum OptVal {
    Normal(String),
    Multiple { vals: Vec<String>, sp: Option<char> },
}

/// One argument of an invocation: a bare flag or a named option.
pub enum Arg {
    Flag(String),
    Opt(String, OptVal),
}

/// An invocation: a binary name and its ordered arguments.
pub struct App {
    pub bin: String,
    pub args: Vec<Arg>,
}

/// The views of a sequence of strings.
pub open spec fn views_of(v: Seq<String>) -> Seq<Seq<char>> {
    v.map_values(|s: String| s@)
}

impl View for OptVal {
    type V = OptValV;

    open spec fn view(&self) -> OptValV {
        match self {
            OptVal::Normal(s) => OptValV::Normal(s@),
            OptVal::Multiple { vals, sp } => OptValV::Multiple(views_of(vals@), *sp),
        }
    }
}

impl View for Arg {
    type V = ArgV;

    open spec fn view(&self) -> ArgV {
        match self {
            Arg::Flag(s) => ArgV::Flag(s@),
            Arg::Opt(name, val) => ArgV::Opt(name@, val@),
        }
    }
}

impl View for App {
    type V = AppV;

    open spec fn view(&self) -> AppV {
        AppV { bin: self.bin@, args: self.args@.map_values(|a: Arg| a@) }
    }
}

impl OptVal {
    pub fn normal(s: &str) -> (r: OptVal)
        ensures
            r@ == OptValV::Normal(s@),
    {
        OptVal::Normal(s.to_owned())
    }

    pub fn multiple(vals: Vec<String>, sp: Option<char>) -> (r: OptVal)
        ensures
            r@ == OptValV::Multiple(views_of(vals@), sp),
    {
        OptVal::Multiple { vals, sp }
    }
}

fn clone_strings(v: &Vec<String>) -> (r: Vec<String>)
    ensures
        r@ == v@,
{
    let mut r: Vec<String> = Vec::new();
    let mut i: usize = 0;
    while i < v.len()
        invariant
            0 <= i <= v.len(),
            r@ == v@.take(i as int),
        decreases v.len() - i,
    {
        r.push(v[i].clone());
        proof {
            assert(r@ =~= v@.take(i + 1 as int));
        }
        i += 1;
    }
    proof {
        assert(r@ =~= v@);
    }
    r
}

impl Clone for OptVal {
    fn clone(&self) -> (r: OptVal)
        ensures
            r@ == self@,
    {
        match self {
            OptVal::Normal(s) => OptVal::Normal(s.clone()),
            OptVal::Multiple { vals, sp } => OptVal::Multiple { vals: clone_strings(vals), sp: *sp },
        }
    }
}

impl Clone for Arg {
    fn clone(&self) -> (r: Arg)
        ensures
            r@ == self@,
    {
        match self {
            Arg::Flag(s) => Arg::Flag(s.clone()),
            Arg::Opt(name, val) => Arg::Opt(name.clone(), val.clone()),
        }
    }
}

fn clone_args(v: &Vec<Arg>) -> (r: Vec<Arg>)
    ensures
        r@.len() == v@.len(),
        forall|j: int| 0 <= j < v@.len() ==> #[trigger] r@[j]@ == v@[j]@,
{
    let mut r: Vec<Arg> = Vec::new();
    let mut i: usize = 0;
    while i < v.len()
        invariant
            r@.len() == i <= v@.len(),
            forall|j: int| 0 <= j < i ==> #[trigger] r@[j]@ == v@[j]@,
        decreases v.len() - i,
    {
        r.push(v[i].clone());
        i += 1;
    }
    r
}

impl Clone for App {
    fn clone(&self) -> (r: App)
        ensures
            r@ == self@,
    {
        let r = App { bin: self.bin.clone(), args: clone_args(&self.args) };
        proof {
            assert forall|j: int| 0 <= j < r@.args.len() implies r@.args[j] == self@.args[j] by {
                assert(r.args@[j]@ == self.args@[j]@);
            }
            assert(r@.args =~= self@.args);
            assert(r@ =~= self@);
        }
        r
    }
}

impl Arg {
    pub fn new_flag(s: &str) -> (r: Arg)
        ensures
            r@ == ArgV::Flag(s@),
    {
        Arg::Flag(s.to_owned())
    }

    pub fn new_opt(name: &str, val: OptVal) -> (r: Arg)
        ensures
            r@ == ArgV::Opt(name@, val@),
    {
        Arg::Opt(name.to_owned(), val)
    }
}

/// `vals` joined into one string, with the separator (when there is one)
/// between consecutive values.
pub open spec fn join(vals: Seq<Seq<char>>, sp: Option<char>) -> Seq<char>
    decreases vals.len(),
{
    if vals.len() == 0 {
        Seq::empty()
    } else if vals.len() == 1 {
        vals[0]
    } else {
        join(vals.drop_last(), sp) + sep_seq(sp) + vals.last()
    }
}

/// The separator as a sequence: one character, or empty when absent.
pub open spec fn sep_seq(sp: Option<char>) -> Seq<char> {
    match sp {
        Some(c) => seq![c],
        None => Seq::empty(),
    }
}

/// The command-line tokens one argument expands to: a flag is one token;
/// an option is its name followed by its (joined) value.
pub open spec fn arg_tokens(a: ArgV) -> Seq<Seq<char>> {
    match a {
        ArgV::Flag(f) => seq![f],
        ArgV::Opt(name, OptValV::Normal(v)) => seq![name, v],
        ArgV::Opt(name, OptValV::Multiple(vals, sp)) => seq![name, join(vals, sp)],
    }
}

/// The tokens of a whole argument list, in order.
pub open spec fn args_tokens(args: Seq<ArgV>) -> Seq<Seq<char>>
    decreases args.len(),
{
    if args.len() == 0 {
        Seq::empty()
    } else {
        args_tokens(args.drop_last()) + arg_tokens(args.last())
    }
}

/// `vals` joined into one string by the separator.
pub fn join_vals(vals: &Vec<String>, sp: Option<char>) -> (r: String)
    ensures
        r@ == join(views_of(vals@), sp),
{
    let mut r = String::new();
    let mut i: usize = 0;
    while i < vals.len()
        invariant
            0 <= i <= vals.len(),
            r@ == join(views_of(vals@).take(i as int), sp),
        decreases vals.len() - i,
    {
        if i > 0 {
            match sp {
                Some(c) => push_char(&mut r, c),
                None => {},
            }
        }
        r.append(vals[i].as_str());
        proof {
            let vs = views_of(vals@);
            assert(vs.take(i + 1 as int).drop_last() =~= vs.take(i as int));
            assert(vs.take(i + 1 as int).last() == vs[i as int]);
            if i == 0 {
                assert(r@ =~= join(vs.take(i + 1 as int), sp));
            } else {
                assert(r@ =~= join(vs.take(i + 1 as int), sp));
            }
        }
        i += 1;
    }
    proof {
        assert(views_of(vals@).take(vals@.len() as int) =~= views_of(vals@));
    }
    r
}

impl App {
    /// A fresh invocation of `bin` with no arguments yet.
    pub fn new(bin: &str) -> (r: App)
        ensures
            r@.bin == bin@,
            r@.args == Seq::<ArgV>::empty(),
    {
        let r = App { bin: bin.to_owned(), args: Vec::new() };
        proof {
            assert(r@.args =~= Seq::<ArgV>::empty());
        }
        r
    }

    /// The invocation extended by one argument; everything already there
    /// keeps its place and order.
    pub fn arg(self, a: Arg) -> (r: App)
        ensures
            r@.bin == self@.bin,
            r@.args == self@.args.push(a@),
    {
        let mut args = self.args;
        let ghost old_args = args@.map_values(|x: Arg| x@);
        args.push(a);
        let r = App { bin: self.bin, args };
        proof {
            assert(r@.args =~= old_args.push(a@));
        }
        r
    }

    /// The argument tokens of the invocation, in order: what follows the
    /// binary name on the assembled command line.
    pub fn iter_arg(&self) -> (r: Vec<String>)
        ensures
            views_of(r@) == args_tokens(self@.args),
    {
        let mut r: Vec<String> = Vec::new();
        let mut i: usize = 0;
        while i < self.args.len()
            invariant
                0 <= i <= self.args.len(),
                views_of(r@) == args_tokens(self@.args.take(i as int)),
                self@.args == self.args@.map_values(|x: Arg| x@),
            decreases self.args.len() - i,
        {
            let ghost prefix = self@.args.take(i as int);
            match &self.args[i] {
                Arg::Flag(f) => {
                    r.push(f.clone());
                },
                Arg::Opt(name, OptVal::Normal(v)) => {
                    r.push(name.clone());
                    r.push(v.clone());
                },
                Arg::Opt(name, OptVal::Multiple { vals, sp }) => {
                    r.push(name.clone());
                    r.push(join_vals(vals, *sp));
                },
            }
            proof {
                let next = self@.args.take(i + 1 as int);
                assert(next.drop_last() =~= prefix);
                assert(next.last() == self@.args[i as int]);
                assert(views_of(r@) =~= args_tokens(prefix) + arg_tokens(self@.args[i as int]));
            }
            i += 1;
        }
        proof {
            assert(self@.args.take(self.args@.len() as int) =~= self@.args);
        }
        r
    }
}

} // verus!
