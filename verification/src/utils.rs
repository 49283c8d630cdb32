//! Helpers shared by the commands.

use vstd::prelude::*;

pub mod workspace;

verus! {

/// The texts of `parts` in order, with `separator` between each two.
pub open spec fn joined(parts: Seq<Seq<char>>, separator: Seq<char>) -> Seq<char>
    decreases parts.len(),
{
    if parts.len() == 0 {
        Seq::empty()
    } else if parts.len() == 1 {
        parts[0]
    } else {
        joined(parts.drop_last(), separator) + separator + parts.last()
    }
}

/// The text between double quotes.
pub open spec fn quoted(text: Seq<char>) -> Seq<char> {
    "\""@ + text + "\""@
}

/// A command line as it is shown: the program, a space, and the arguments,
/// each between double quotes, with a space between each two.
pub open spec fn command_line(program: Seq<char>, args: Seq<Seq<char>>) -> Seq<char> {
    program + " "@ + joined(args.map_values(|arg: Seq<char>| quoted(arg)), " "@)
}

/// Whether two texts are the same, letter for letter.
pub fn same_text(a: &str, b: &str) -> (same: bool)
    ensures
        same == (a@ == b@),
{
    a.to_owned() == b.to_owned()
}

/// The texts of `parts` in order, with `separator` between each two.
pub fn join(parts: &Vec<String>, separator: &str) -> (text: String)
    ensures
        text@ == joined(parts.deep_view(), separator@),
{
    let mut text = String::new();
    let mut i: usize = 0;
    while i < parts.len()
        invariant
            i <= parts.len(),
            text@ == joined(parts.deep_view().take(i as int), separator@),
        decreases parts.len() - i,
    {
        let ghost before = parts.deep_view().take(i as int);
        let ghost now = parts.deep_view().take(i + 1);
        assert(now.drop_last() =~= before);
        assert(now.last() == parts[i as int]@);
        if i > 0 {
            text.append(separator);
        }
        text.append(parts[i].as_str());
        assert(text@ =~= joined(now, separator@));
        i = i + 1;
    }
    assert(parts.deep_view().take(i as int) =~= parts.deep_view());
    text
}

/// The command line of `program` with `args` as it is shown to the user.
pub fn get_command_line_from_command(program: &str, args: &Vec<String>) -> (line: String)
    ensures
        line@ == command_line(program@, args.deep_view()),
{
    let mut shown: Vec<String> = Vec::new();
    let mut i: usize = 0;
    while i < args.len()
        invariant
            i <= args.len(),
            shown.deep_view() == args.deep_view().take(i as int).map_values(
                |arg: Seq<char>| quoted(arg),
            ),
        decreases args.len() - i,
    {
        let ghost before = shown.deep_view();
        let mut arg = "\"".to_owned();
        arg.append(args[i].as_str());
        arg.append("\"");
        assert(arg@ == quoted(args[i as int]@));
        shown.push(arg);
        assert(shown.deep_view() =~= before.push(quoted(args[i as int]@)));
        assert(args.deep_view().take(i + 1) =~= args.deep_view().take(i as int).push(
            args[i as int]@,
        ));
        assert(shown.deep_view() =~= args.deep_view().take(i + 1).map_values(
            |arg: Seq<char>| quoted(arg),
        ));
        i = i + 1;
    }
    assert(args.deep_view().take(i as int) =~= args.deep_view());
    let mut line = program.to_owned();
    line.append(" ");
    let rest = join(&shown, " ");
    line.append(rest.as_str());
    line
}

/// A list of parameters for a command line.
#[derive(Debug, PartialEq, Eq)]
pub struct Params {
    pub params: Vec<String>,
}

impl View for Params {
    type V = Seq<Seq<char>>;

    open spec fn view(&self) -> Seq<Seq<char>> {
        self.params.deep_view()
    }
}

impl Clone for Params {
    fn clone(&self) -> (copy: Params)
        ensures
            copy@ == self@,
    {
        let copy = Params { params: self.params.clone() };
        assert(copy@ =~= self@);
        copy
    }
}

impl From<&str> for Params {
    /// The list that holds `value` alone.
    fn from(value: &str) -> (list: Params)
        ensures
            list@ == seq![value@],
    {
        let mut params: Vec<String> = Vec::new();
        params.push(value.to_owned());
        let list = Params { params };
        assert(list@ =~= seq![value@]);
        list
    }
}

/// What the conversion gives is stated on `from` itself, over the texts of
/// the list: two lists of the same texts need not be one and the same
/// value, so no list is named here as the one that comes out.
impl vstd::std_specs::convert::FromSpecImpl<&str> for Params {
    open spec fn obeys_from_spec() -> bool {
        false
    }

    open spec fn from_spec(value: &str) -> Params {
        arbitrary()
    }
}

impl From<Vec<&str>> for Params {
    /// The list that holds the texts of `value`, in order.
    fn from(value: Vec<&str>) -> (list: Params)
        ensures
            list@ == value@.map_values(|text: &str| text@),
    {
        let mut params: Vec<String> = Vec::new();
        let mut i: usize = 0;
        while i < value.len()
            invariant
                i <= value.len(),
                params.deep_view() == value@.take(i as int).map_values(|text: &str| text@),
            decreases value.len() - i,
        {
            let ghost before = params.deep_view();
            params.push(value[i].to_owned());
            assert(params.deep_view() =~= before.push(value@[i as int]@));
            assert(value@.take(i + 1) =~= value@.take(i as int).push(value@[i as int]));
            assert(params.deep_view() =~= value@.take(i + 1).map_values(|text: &str| text@));
            i = i + 1;
        }
        assert(value@.take(i as int) =~= value@);
        Params { params }
    }
}

/// What the conversion gives is stated on `from` itself, over the texts of
/// the list: two lists of the same texts need not be one and the same
/// value, so no list is named here as the one that comes out.
impl vstd::std_specs::convert::FromSpecImpl<Vec<&str>> for Params {
    open spec fn obeys_from_spec() -> bool {
        false
    }

    open spec fn from_spec(value: Vec<&str>) -> Params {
        arbitrary()
    }
}

impl<const N: usize> From<[&str; N]> for Params {
    /// The list that holds the texts of `value`, in order.
    fn from(value: [&str; N]) -> (list: Params)
        ensures
            list@ == value@.map_values(|text: &str| text@),
    {
        let mut params: Vec<String> = Vec::new();
        let mut i: usize = 0;
        while i < N
            invariant
                i <= N,
                value@.len() == N,
                params.deep_view() == value@.take(i as int).map_values(|text: &str| text@),
            decreases N - i,
        {
            let ghost before = params.deep_view();
            params.push(value[i].to_owned());
            assert(params.deep_view() =~= before.push(value@[i as int]@));
            assert(value@.take(i + 1) =~= value@.take(i as int).push(value@[i as int]));
            assert(params.deep_view() =~= value@.take(i + 1).map_values(|text: &str| text@));
            i = i + 1;
        }
        assert(value@.take(i as int) =~= value@);
        Params { params }
    }
}

/// What the conversion gives is stated on `from` itself, over the texts of
/// the list: two lists of the same texts need not be one and the same
/// value, so no list is named here as the one that comes out.
impl<const N: usize> vstd::std_specs::convert::FromSpecImpl<[&str; N]> for Params {
    open spec fn obeys_from_spec() -> bool {
        false
    }

    open spec fn from_spec(value: [&str; N]) -> Params {
        arbitrary()
    }
}

impl<Rhs: Into<Params>> std::ops::Add<Rhs> for Params {
    type Output = Params;

    /// The list with the parameters that `rhs` converts to at its end.
    fn add(self, rhs: Rhs) -> (sum: Params)
        ensures
            exists|more: Params| #[trigger]
                call_ensures(<Rhs as Into<Params>>::into, (rhs,), more) && sum@ == self@ + more@,
    {
        let mut sum = self;
        let mut more: Params = rhs.into();
        let ghost first = sum@;
        let ghost second = more@;
        sum.params.append(&mut more.params);
        assert(sum@ =~= first + second);
        sum
    }
}

/// What the sum holds is stated on `add` itself, over the texts of the
/// lists; every pair of operands is accepted.
impl<Rhs: Into<Params>> vstd::std_specs::ops::AddSpecImpl<Rhs> for Params {
    open spec fn obeys_add_spec() -> bool {
        false
    }

    open spec fn add_req(self, rhs: Rhs) -> bool {
        true
    }

    open spec fn add_spec(self, rhs: Rhs) -> Params {
        arbitrary()
    }
}

impl Params {
    /// The parameters in order, with a space between each two.
    pub fn to_string(&self) -> (text: String)
        ensures
            text@ == joined(self@, " "@),
    {
        join(&self.params, " ")
    }
}

} // verus!
