//! Taking the arguments of a command apart: flags, options with a value, and
//! positional arguments, in any order.

use vstd::prelude::*;
use vstd::slice::slice_subrange;

use crate::number::{parse_unsigned, spec_parse};
use crate::split::upto;
use crate::text::{append_to, copy, from_chars, holds, same, spec_starts, starts, to_chars};

verus! {

/// What a command takes.
pub struct Shape {
    pub flags: Vec<String>,
    pub options: Vec<String>,
    pub positionals: usize,
}

#[verifier::ext_equal]
pub ghost struct ShapeView {
    pub flags: Seq<Seq<char>>,
    pub options: Seq<Seq<char>>,
    pub positionals: nat,
}

impl DeepView for Shape {
    type V = ShapeView;

    open spec fn deep_view(&self) -> ShapeView {
        ShapeView {
            flags: self.flags.deep_view(),
            options: self.options.deep_view(),
            positionals: self.positionals as nat,
        }
    }
}

/// What a command was given.
pub struct Given {
    pub flags: Vec<String>,
    pub options: Vec<(String, String)>,
    pub positionals: Vec<String>,
}

#[verifier::ext_equal]
pub ghost struct GivenView {
    pub flags: Seq<Seq<char>>,
    pub options: Seq<(Seq<char>, Seq<char>)>,
    pub positionals: Seq<Seq<char>>,
}

impl DeepView for Given {
    type V = GivenView;

    open spec fn deep_view(&self) -> GivenView {
        GivenView {
            flags: self.flags.deep_view(),
            options: self.options.deep_view(),
            positionals: self.positionals.deep_view(),
        }
    }
}

/// The value under a name.
pub open spec fn value_under(options: Seq<(Seq<char>, Seq<char>)>, name: Seq<char>) -> Option<
    Seq<char>,
>
    decreases options.len(),
{
    if options.len() == 0 {
        None
    } else if options[0].0 == name {
        Some(options[0].1)
    } else {
        value_under(options.drop_first(), name)
    }
}

impl GivenView {
    pub open spec fn nothing() -> GivenView {
        GivenView { flags: Seq::empty(), options: Seq::empty(), positionals: Seq::empty() }
    }

    pub open spec fn has(self, name: Seq<char>) -> bool {
        self.flags.contains(name)
    }

    pub open spec fn value(self, name: Seq<char>) -> Option<Seq<char>> {
        value_under(self.options, name)
    }

    /// The first positional argument.
    pub open spec fn first(self) -> Option<Seq<char>> {
        if self.positionals.len() > 0 {
            Some(self.positionals[0])
        } else {
            None
        }
    }

    /// The value under a name is a number, or there is none.
    pub open spec fn is_number(self, name: Seq<char>) -> bool {
        match self.value(name) {
            Some(s) => spec_parse(s, u64::MAX as nat) is Some,
            None => true,
        }
    }

    /// The number under a name.
    pub open spec fn number(self, name: Seq<char>) -> Option<u64> {
        match self.value(name) {
            Some(s) => match spec_parse(s, u64::MAX as nat) {
                Some(n) => Some(n as u64),
                None => None,
            },
            None => None,
        }
    }

    pub open spec fn with_flag(self, name: Seq<char>) -> GivenView {
        GivenView { flags: self.flags.push(name), ..self }
    }

    pub open spec fn with_option(self, name: Seq<char>, value: Seq<char>) -> GivenView {
        GivenView { options: self.options.push((name, value)), ..self }
    }

    pub open spec fn with_positional(self, value: Seq<char>) -> GivenView {
        GivenView { positionals: self.positionals.push(value), ..self }
    }
}

/// An argument that begins with a hyphen and is more than that.
pub open spec fn is_dashed(arg: Seq<char>) -> bool {
    arg.len() > 1 && arg[0] == '-'
}

/// The name in an argument of the form `<name>=<value>` or `<name>`.
pub open spec fn name_in(arg: Seq<char>) -> Seq<char> {
    arg.subrange(0, upto(arg, '=') as int)
}

/// The value in an argument of the form `<name>=<value>`.
pub open spec fn value_in(arg: Seq<char>) -> Option<Seq<char>> {
    if upto(arg, '=') < arg.len() {
        Some(arg.subrange(upto(arg, '=') as int + 1, arg.len() as int))
    } else {
        None
    }
}

/// All the rest taken as positional arguments, where there is room for them.
pub open spec fn all_positional(args: Seq<Seq<char>>, shape: ShapeView, given: GivenView) -> Option<
    GivenView,
> {
    if given.positionals.len() + args.len() <= shape.positionals {
        Some(GivenView { positionals: given.positionals + args, ..given })
    } else {
        None
    }
}

/// What the arguments give, on top of what was given before; `None` where they do
/// not fit. Each flag and option may come once. An option takes its value from
/// behind an equals sign, or from the next argument, which may not begin with a
/// hyphen unless it is one. Behind `--` everything is positional.
pub open spec fn scan(args: Seq<Seq<char>>, shape: ShapeView, given: GivenView) -> Option<GivenView>
    decreases args.len(),
{
    if args.len() == 0 {
        Some(given)
    } else {
        let arg = args[0];
        let rest = args.drop_first();
        if arg == "--"@ {
            all_positional(rest, shape, given)
        } else if spec_starts(arg, "--"@) {
            let name = name_in(arg);
            if shape.flags.contains(name) {
                if value_in(arg) is Some || given.has(name) {
                    None
                } else {
                    scan(rest, shape, given.with_flag(name))
                }
            } else if shape.options.contains(name) {
                if given.value(name) is Some {
                    None
                } else {
                    match value_in(arg) {
                        Some(value) => scan(rest, shape, given.with_option(name, value)),
                        None => if rest.len() == 0 || is_dashed(rest[0]) {
                            None
                        } else {
                            scan(
                                rest.drop_first(),
                                shape,
                                given.with_option(name, rest[0]),
                            )
                        },
                    }
                }
            } else {
                None
            }
        } else if is_dashed(arg) || given.positionals.len() >= shape.positionals {
            None
        } else {
            scan(rest, shape, given.with_positional(arg))
        }
    }
}

impl Given {
    pub fn nothing() -> (r: Given)
        ensures
            r.deep_view() == GivenView::nothing(),
    {
        let r: Given = Given {
            flags: Vec::new(),
            options: Vec::new(),
            positionals: Vec::new(),
        };
        assert(r.deep_view() =~= GivenView::nothing());
        r
    }

    pub fn has(&self, name: &str) -> (r: bool)
        ensures
            r == self.deep_view().has(name@),
    {
        holds(&self.flags, name)
    }

    pub fn value(&self, name: &str) -> (r: Option<String>)
        ensures
            r.deep_view() == self.deep_view().value(name@),
    {
        let ghost all = self.options.deep_view();
        let mut i: usize = 0;
        assert(all.subrange(0, all.len() as int) =~= all);
        while i < self.options.len()
            invariant
                i <= self.options@.len(),
                all == self.options.deep_view(),
                value_under(all, name@) == value_under(
                    all.subrange(i as int, all.len() as int),
                    name@,
                ),
            decreases self.options@.len() - i,
        {
            proof {
                let rest = all.subrange(i as int, all.len() as int);
                assert(rest[0] == self.options@[i as int].deep_view());
                assert(rest.drop_first() =~= all.subrange(i + 1, all.len() as int));
            }
            if same(self.options[i].0.as_str(), name) {
                return Some(copy(&self.options[i].1));
            }
            i += 1;
        }
        None
    }

    pub fn first(&self) -> (r: Option<String>)
        ensures
            r.deep_view() == self.deep_view().first(),
    {
        if self.positionals.len() > 0 {
            assert(self.positionals.deep_view()[0] == self.positionals@[0]@);
            Some(copy(&self.positionals[0]))
        } else {
            None
        }
    }

    /// The number under a name, `Err` where the value is not one.
    pub fn number(&self, name: &str) -> (r: Result<Option<u64>, ()>)
        ensures
            match r {
                Ok(n) => self.deep_view().is_number(name@) && n == self.deep_view().number(name@),
                Err(_) => !self.deep_view().is_number(name@),
            },
    {
        match self.value(name) {
            None => Ok(None),
            Some(s) => match parse_unsigned(s.as_str(), u64::MAX) {
                Some(n) => Ok(Some(n)),
                None => Err(()),
            },
        }
    }

    fn add_flag(&mut self, name: String)
        ensures
            final(self).deep_view() == old(self).deep_view().with_flag(name@),
    {
        append_to(&mut self.flags, name);
    }

    fn add_option(&mut self, name: String, value: String)
        ensures
            final(self).deep_view() == old(self).deep_view().with_option(name@, value@),
    {
        let ghost before = self.options.deep_view();
        self.options.push((name, value));
        assert(self.options.deep_view() =~= before.push((name@, value@)));
    }

    fn add_positional(&mut self, value: String)
        ensures
            final(self).deep_view() == old(self).deep_view().with_positional(value@),
    {
        append_to(&mut self.positionals, value);
    }
}

fn dashed(arg: &str) -> (r: bool)
    ensures
        r == is_dashed(arg@),
{
    arg.unicode_len() > 1 && arg.get_char(0) == '-'
}

/// The name, and the value behind an equals sign.
fn cut(arg: &str) -> (r: (String, Option<String>))
    ensures
        r.0@ == name_in(arg@),
        r.1.deep_view() == value_in(arg@),
{
    let v: Vec<char> = to_chars(arg);
    let n: usize = v.len();
    let mut i: usize = 0;
    assert(v@.subrange(0, v@.len() as int) =~= v@);
    while i < n && v[i] != '='
        invariant
            i <= n,
            n == v@.len(),
            upto(v@, '=') == i + upto(v@.subrange(i as int, v@.len() as int), '='),
        decreases n - i,
    {
        assert(v@.subrange(i as int, v@.len() as int).drop_first() =~= v@.subrange(
            i + 1,
            v@.len() as int,
        ));
        i += 1;
    }
    let name: String = from_chars(slice_subrange(v.as_slice(), 0, i));
    if i < n {
        (name, Some(from_chars(slice_subrange(v.as_slice(), i + 1, n))))
    } else {
        (name, None)
    }
}

/// The arguments from position `i` on.
pub open spec fn rest_of(args: Seq<Seq<char>>, i: int) -> Seq<Seq<char>> {
    args.subrange(i, args.len() as int)
}

/// Takes the arguments from `start` on apart.
pub fn scan_args(args: &Vec<String>, start: usize, shape: &Shape) -> (r: Option<Given>)
    requires
        start <= args@.len(),
    ensures
        r.deep_view() == scan(
            rest_of(args.deep_view(), start as int),
            shape.deep_view(),
            GivenView::nothing(),
        ),
{
    let ghost all = args.deep_view();
    let ghost result = scan(rest_of(all, start as int), shape.deep_view(), GivenView::nothing());
    let mut given: Given = Given::nothing();
    let mut i: usize = start;
    while i < args.len()
        invariant
            i <= args@.len(),
            all == args.deep_view(),
            result == scan(rest_of(all, i as int), shape.deep_view(), given.deep_view()),
        decreases args@.len() - i,
    {
        let ghost rest = rest_of(all, i as int);
        let arg: &str = args[i].as_str();
        proof {
            assert(rest[0] == arg@);
            assert(rest.drop_first() =~= rest_of(all, i + 1));
        }
        if same(arg, "--") {
            return take_rest(args, i + 1, shape, given);
        }
        if starts(arg, "--") {
            let cut: (String, Option<String>) = cut(arg);
            let name: &str = cut.0.as_str();
            if holds(&shape.flags, name) {
                if cut.1.is_some() || given.has(name) {
                    return None;
                }
                given.add_flag(cut.0);
            } else if holds(&shape.options, name) {
                if given.value(name).is_some() {
                    return None;
                }
                match cut.1 {
                    Some(value) => {
                        given.add_option(cut.0, value);
                    },
                    None => {
                        if i + 1 >= args.len() || dashed(args[i + 1].as_str()) {
                            proof {
                                if i + 1 < args@.len() {
                                    assert(rest.drop_first()[0] == args@[i + 1]@);
                                }
                            }
                            return None;
                        }
                        proof {
                            assert(rest.drop_first()[0] == args@[i + 1]@);
                            assert(rest.drop_first().drop_first() =~= rest_of(all, i + 2));
                        }
                        given.add_option(cut.0, copy(&args[i + 1]));
                        i += 1;
                    },
                }
            } else {
                return None;
            }
        } else if dashed(arg) || given.positionals.len() >= shape.positionals {
            return None;
        } else {
            given.add_positional(arg.to_string());
        }
        i += 1;
    }
    assert(rest_of(all, i as int) =~= Seq::<Seq<char>>::empty());
    Some(given)
}

fn take_rest(args: &Vec<String>, start: usize, shape: &Shape, given: Given) -> (r: Option<Given>)
    requires
        start <= args@.len(),
    ensures
        r.deep_view() == all_positional(
            rest_of(args.deep_view(), start as int),
            shape.deep_view(),
            given.deep_view(),
        ),
{
    let ghost all = args.deep_view();
    let ghost before = given.deep_view();
    let mut given: Given = given;
    let taken: usize = given.positionals.len();
    let n: usize = args.len();
    if taken > shape.positionals || n - start > shape.positionals - taken {
        return None;
    }
    let mut i: usize = start;
    assert(before.positionals + all.subrange(start as int, start as int)
        =~= before.positionals);
    while i < n
        invariant
            start <= i <= n,
            n == args@.len(),
            all == args.deep_view(),
            given.deep_view() == (GivenView {
                positionals: before.positionals + all.subrange(start as int, i as int),
                ..before
            }),
        decreases n - i,
    {
        given.add_positional(copy(&args[i]));
        proof {
            assert((before.positionals + all.subrange(start as int, i as int)).push(all[i as int])
                =~= before.positionals + all.subrange(start as int, i + 1));
        }
        i += 1;
    }
    Some(given)
}

} // verus!
