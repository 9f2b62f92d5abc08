//! Backend selection for `--encoder` and `--decoder`.
//!
//! Both flags take a strategy (`auto`, `hardware`, `software`) or the name of
//! one backend, out of a list that the codec layer provides. An unknown name
//! fails at parse time. A known name that a build lacks fails when the encoder
//! or decoder opens.

use vstd::prelude::*;

use crate::text;

verus! {

/// A backend choice: a strategy, or one backend by name.
#[derive(Debug, Clone, Copy, PartialEq, Eq)]
pub enum Backend {
    /// Tries the hardware backends in turn, then software.
    Auto,
    /// Hardware only: fails rather than fall back to the CPU.
    Hardware,
    /// Software only, which is openh264.
    Software,
    /// Only the backend of this name.
    Named(&'static str),
}

impl Default for Backend {
    fn default() -> (res: Self)
        ensures
            res == Backend::Auto,
    {
        Backend::Auto
    }
}

/// A [`Backend`] with its name as a character sequence.
pub enum BackendView {
    Auto,
    Hardware,
    Software,
    Named(Seq<char>),
}

impl View for Backend {
    type V = BackendView;

    open spec fn view(&self) -> BackendView {
        match *self {
            Backend::Auto => BackendView::Auto,
            Backend::Hardware => BackendView::Hardware,
            Backend::Software => BackendView::Software,
            Backend::Named(name) => BackendView::Named(name@),
        }
    }
}

impl BackendView {
    /// The text a choice is shown and typed as.
    pub open spec fn name(self) -> Seq<char> {
        match self {
            BackendView::Auto => "auto"@,
            BackendView::Hardware => "hardware"@,
            BackendView::Software => "software"@,
            BackendView::Named(name) => name,
        }
    }
}

/// A list of names as character sequences.
pub open spec fn name_list(names: Seq<&'static str>) -> Seq<Seq<char>> {
    Seq::new(names.len(), |i: int| names[i]@)
}

/// Every choice over `names`: the strategies, then each name in its order.
pub open spec fn all_choices(names: Seq<Seq<char>>) -> Seq<BackendView> {
    seq![BackendView::Auto, BackendView::Hardware, BackendView::Software] + Seq::new(
        names.len(),
        |i: int| BackendView::Named(names[i]),
    )
}

/// Whether `value` is one of the words for a strategy.
pub open spec fn is_strategy(value: Seq<char>) -> bool {
    value == "auto"@ || value == "hardware"@ || value == "hw"@ || value == "software"@ || value
        == "sw"@
}

/// The choice that `value`, in lower case, stands for.
pub open spec fn backend_of(value: Seq<char>, names: Seq<Seq<char>>) -> Option<BackendView> {
    if value == "auto"@ {
        Some(BackendView::Auto)
    } else if value == "hardware"@ || value == "hw"@ {
        Some(BackendView::Hardware)
    } else if value == "software"@ || value == "sw"@ {
        Some(BackendView::Software)
    } else if names.contains(value) {
        Some(BackendView::Named(value))
    } else {
        None
    }
}

/// An optional choice by its view.
pub open spec fn opt_view(choice: Option<Backend>) -> Option<BackendView> {
    match choice {
        Some(choice) => Some(choice@),
        None => None,
    }
}

impl Backend {
    /// Returns every choice over `names`.
    pub fn choices(names: &'static [&'static str]) -> (res: Vec<Backend>)
        ensures
            Seq::new(res@.len(), |i: int| res@[i]@) == all_choices(name_list(names@)),
    {
        let mut res: Vec<Backend> = Vec::new();
        res.push(Backend::Auto);
        res.push(Backend::Hardware);
        res.push(Backend::Software);
        let mut i: usize = 0;
        while i < names.len()
            invariant
                i <= names.len(),
                res@.len() == 3 + i,
                res@[0] == Backend::Auto,
                res@[1] == Backend::Hardware,
                res@[2] == Backend::Software,
                forall|j: int| 0 <= j < i ==> #[trigger] res@[3 + j] == Backend::Named(names@[j]),
            decreases names.len() - i,
        {
            res.push(Backend::Named(names[i]));
            i += 1;
        }
        proof {
            let got = Seq::new(res@.len(), |i: int| res@[i]@);
            let want = all_choices(name_list(names@));
            assert(got.len() == want.len());
            assert forall|k: int| 0 <= k < got.len() implies got[k] == want[k] by {
                if k >= 3 {
                    assert(res@[3 + (k - 3)] == Backend::Named(names@[k - 3]));
                }
            }
            assert(got =~= want);
        }
        res
    }

    /// Parses a choice, in any mix of capitals.
    pub fn parse(value: &str, names: &'static [&'static str]) -> (res: Option<Backend>)
        ensures
            opt_view(res) == backend_of(text::lower(value@), name_list(names@)),
    {
        let lowered = text::to_lowercase(value);
        Self::of_lowered(lowered.as_str(), names)
    }

    /// Parses a choice that is in lower case.
    pub fn of_lowered(value: &str, names: &'static [&'static str]) -> (res: Option<Backend>)
        ensures
            opt_view(res) == backend_of(value@, name_list(names@)),
    {
        if text::same(value, "auto") {
            return Some(Backend::Auto);
        }
        if text::same(value, "hardware") || text::same(value, "hw") {
            return Some(Backend::Hardware);
        }
        if text::same(value, "software") || text::same(value, "sw") {
            return Some(Backend::Software);
        }
        let ghost list = name_list(names@);
        let mut i: usize = 0;
        while i < names.len()
            invariant
                i <= names.len(),
                list == name_list(names@),
                value@ != "auto"@,
                value@ != "hardware"@,
                value@ != "hw"@,
                value@ != "software"@,
                value@ != "sw"@,
                forall|j: int| 0 <= j < i ==> #[trigger] list[j] != value@,
            decreases names.len() - i,
        {
            let name: &'static str = names[i];
            if text::same(name, value) {
                proof {
                    assert(list[i as int] == value@);
                }
                return Some(Backend::Named(name));
            }
            assert(list[i as int] == name@);
            i += 1;
        }
        None
    }

    /// Returns the text this choice is shown and typed as.
    pub fn name(&self) -> (res: &'static str)
        ensures
            res@ == self@.name(),
    {
        match self {
            Backend::Auto => "auto",
            Backend::Hardware => "hardware",
            Backend::Software => "software",
            Backend::Named(name) => *name,
        }
    }

    /// Returns whether two choices are the same.
    pub fn same_as(&self, other: &Backend) -> (res: bool)
        ensures
            res == (self@ == other@),
    {
        match (self, other) {
            (Backend::Auto, Backend::Auto) => true,
            (Backend::Hardware, Backend::Hardware) => true,
            (Backend::Software, Backend::Software) => true,
            (Backend::Named(left), Backend::Named(right)) => text::same(*left, *right),
            _ => false,
        }
    }
}

/// Every choice parses back from its name, as long as the names are ASCII in
/// lower case and none is a word for a strategy.
pub proof fn law_every_choice_parses_back(names: Seq<Seq<char>>, i: int)
    requires
        forall|j: int|
            0 <= j < names.len() ==> {
                let name = #[trigger] names[j];
                text::is_ascii(name) && text::ascii_lowercase(name) == name && !is_strategy(name)
            },
        0 <= i < all_choices(names).len(),
    ensures
        backend_of(text::lower(all_choices(names)[i].name()), names) == Some(
            all_choices(names)[i],
        ),
{
    reveal_strlit("auto");
    reveal_strlit("hardware");
    reveal_strlit("software");
    reveal_strlit("hw");
    reveal_strlit("sw");
    assert(text::ascii_lowercase("auto"@) =~= "auto"@);
    assert(text::ascii_lowercase("hardware"@) =~= "hardware"@);
    assert(text::ascii_lowercase("software"@) =~= "software"@);
    if i >= 3 {
        let name = names[i - 3];
        assert(all_choices(names)[i] == BackendView::Named(name));
        assert(!is_strategy(name));
        assert(names.contains(name));
    }
    if i == 1 {
        assert("hardware"@.len() != "auto"@.len());
    }
    if i == 2 {
        assert("software"@.len() != "auto"@.len() && "software"@[0] != "hardware"@[0]);
    }
}

/// A strategy has its full name and its short one, a backend that is there its
/// own, and nothing else is a choice.
pub proof fn law_a_choice_is_a_strategy_or_a_name(value: Seq<char>, names: Seq<Seq<char>>)
    ensures
        backend_of("auto"@, names) == Some(BackendView::Auto),
        backend_of("hardware"@, names) == Some(BackendView::Hardware),
        backend_of("hw"@, names) == Some(BackendView::Hardware),
        backend_of("software"@, names) == Some(BackendView::Software),
        backend_of("sw"@, names) == Some(BackendView::Software),
        backend_of(value, names) matches Some(BackendView::Named(name)) ==> name == value
            && names.contains(value),
        names.contains(value) ==> backend_of(value, names) is Some,
        backend_of(value, names) is Some ==> names.contains(value) || value == "auto"@ || value
            == "hardware"@ || value == "hw"@ || value == "software"@ || value == "sw"@,
{
    reveal_strlit("auto");
    reveal_strlit("hardware");
    reveal_strlit("software");
    reveal_strlit("hw");
    reveal_strlit("sw");
    assert("hardware"@[0] != "software"@[0] && "hw"@[0] != "sw"@[0]);
}

/// Every strategy and every backend that is there can be chosen, strategies
/// first.
pub proof fn law_every_backend_can_be_chosen(names: Seq<Seq<char>>, i: int)
    requires
        0 <= i < names.len(),
    ensures
        all_choices(names).len() == names.len() + 3,
        all_choices(names)[0] is Auto,
        all_choices(names)[1] is Hardware,
        all_choices(names)[2] is Software,
        all_choices(names)[i + 3] == BackendView::Named(names[i]),
{
}

/// A backend is seen as what it is, with what it holds.
pub proof fn law_a_backend_is_seen_as_it_is(one: Backend)
    ensures
        one matches Backend::Auto ==> one@ == BackendView::Auto,
        one matches Backend::Hardware ==> one@ == BackendView::Hardware,
        one matches Backend::Software ==> one@ == BackendView::Software,
        one matches Backend::Named(name) ==> one@ == BackendView::Named(name@),
{
}

} // verus!
