//! The environment variables of the process, as they were read once.
use vstd::prelude::*;

verus! {

/// The value of the first variable of the given name.
pub open spec fn variable(variables: Seq<(Seq<char>, Seq<char>)>, name: Seq<char>) -> Option<
    Seq<char>,
>
    decreases variables.len(),
{
    if variables.len() == 0 {
        None
    } else if variables[0].0 == name {
        Some(variables[0].1)
    } else {
        variable(variables.drop_first(), name)
    }
}

/// The value of a variable is that of the first of its name; there is none just where no variable has
/// the name.
pub proof fn first_variable_counts(variables: Seq<(Seq<char>, Seq<char>)>, name: Seq<char>)
    ensures
        match variable(variables, name) {
            Some(value) => exists|i: int|
                {
                    &&& 0 <= i < variables.len()
                    &&& #[trigger] variables[i] == (name, value)
                    &&& forall|j: int| 0 <= j < i ==> (#[trigger] variables[j]).0 != name
                },
            None => forall|i: int| 0 <= i < variables.len() ==> (#[trigger] variables[i]).0 != name,
        },
    decreases variables.len(),
{
    if variables.len() > 0 {
        if variables[0].0 == name {
            assert(variables[0] == (name, variables[0].1));
        } else {
            let rest = variables.drop_first();
            first_variable_counts(rest, name);
            match variable(rest, name) {
                Some(value) => {
                    let i = choose|i: int|
                        {
                            &&& 0 <= i < rest.len()
                            &&& #[trigger] rest[i] == (name, value)
                            &&& forall|j: int| 0 <= j < i ==> (#[trigger] rest[j]).0 != name
                        };
                    assert(variables[i + 1] == (name, value));
                    assert forall|j: int| 0 <= j < i + 1 implies (#[trigger] variables[j]).0 != name by {
                        if j > 0 {
                            assert(rest[j - 1].0 != name);
                        }
                    }
                },
                None => {
                    assert forall|i: int| 0 <= i < variables.len() implies (#[trigger] variables[i]).0
                        != name by {
                        if i > 0 {
                            assert(rest[i - 1].0 != name);
                        }
                    }
                },
            }
        }
    }
}

/// A variable of another name, wherever it stands, does not change the value of a variable.
pub proof fn other_variables_do_not_count(
    before: Seq<(Seq<char>, Seq<char>)>,
    other: (Seq<char>, Seq<char>),
    after: Seq<(Seq<char>, Seq<char>)>,
    name: Seq<char>,
)
    requires
        other.0 != name,
    ensures
        variable(before + seq![other] + after, name) == variable(before + after, name),
    decreases before.len(),
{
    if before.len() == 0 {
        let all = before + seq![other] + after;
        assert(all.drop_first() =~= before + after);
    } else {
        let rest = before.drop_first();
        other_variables_do_not_count(rest, other, after, name);
        assert((before + seq![other] + after).drop_first() =~= rest + seq![other] + after);
        assert((before + after).drop_first() =~= rest + after);
    }
}

/// Environment variables, each a name and a value.
#[derive(Debug)]
pub struct Environment {
    pub variables: Vec<(String, String)>,
}

impl View for Environment {
    type V = Seq<(Seq<char>, Seq<char>)>;

    open spec fn view(&self) -> Seq<(Seq<char>, Seq<char>)> {
        self.variables@.map_values(|v: (String, String)| (v.0@, v.1@))
    }
}

impl Environment {
    /// The value of a variable; `None` where there is none of that name.
    pub fn var(&self, name: &str) -> (value: Option<String>)
        ensures
            crate::text::view_of(value) == variable(self@, name@),
            match value {
                Some(value) => exists|i: int|
                    {
                        &&& 0 <= i < self.variables@.len()
                        &&& (#[trigger] self.variables@[i]).0@ == name@
                        &&& self.variables@[i].1@ == value@
                        &&& forall|j: int| 0 <= j < i ==> (#[trigger] self.variables@[j]).0@ != name@
                    },
                None => forall|i: int|
                    0 <= i < self.variables@.len() ==> (#[trigger] self.variables@[i]).0@ != name@,
            },
    {
        let wanted: String = name.to_owned();
        let n: usize = self.variables.len();
        let mut i: usize = 0;
        assert(self@.skip(0) =~= self@);
        while i < n
            invariant
                i <= n,
                n == self.variables@.len(),
                wanted@ == name@,
                variable(self@, name@) == variable(self@.skip(i as int), name@),
                forall|j: int| 0 <= j < i ==> (#[trigger] self.variables@[j]).0@ != name@,
            decreases n - i,
        {
            assert(self@.skip(i as int)[0] == (
                self.variables@[i as int].0@,
                self.variables@[i as int].1@,
            ));
            assert(self@.skip(i as int).drop_first() =~= self@.skip(i + 1));
            if self.variables[i].0 == wanted {
                return Some(self.variables[i].1.clone());
            }
            i += 1;
        }
        None
    }
}

/// An environment stands for its variables, one by one.
pub proof fn environment_stands_for(env: Environment)
    ensures
        env@.len() == env.variables@.len(),
        forall|i: int|
            0 <= i < env.variables@.len() ==> #[trigger] env@[i] == (
                env.variables@[i].0@,
                env.variables@[i].1@,
            ),
{
}

} // verus!
