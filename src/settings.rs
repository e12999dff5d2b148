use vstd::prelude::*;
use vstd::string::*;

verus! {

/// Name of the variable that carries the preferred theme to the helper.
pub const THEME_VAR: &'static str = "MUI_PREFERRED_THEME";

/// Name of the variable that carries the component filter to the helper.
pub const FILTER_VAR: &'static str = "MUI_COMPONENT_FILTER";

/// The user's options for the helper, as read from the project settings.
/// Each option is either absent or present with a value of its shape.
pub struct UserSettings {
    pub preferred_theme: Option<String>,
    pub component_filter: Option<Vec<String>>,
}

/// The character sequences of a list of strings.
pub open spec fn strings_view(v: Seq<String>) -> Seq<Seq<char>> {
    v.map_values(|s: String| s@)
}

/// The parts joined by single commas, in order, with nothing added.
pub open spec fn comma_joined(parts: Seq<Seq<char>>) -> Seq<char>
    decreases parts.len(),
{
    if parts.len() == 0 {
        Seq::empty()
    } else if parts.len() == 1 {
        parts[0]
    } else {
        comma_joined(parts.drop_last()) + seq![','] + parts.last()
    }
}

/// An environment as a sequence of (name, value) character sequences.
pub open spec fn env_view(v: Seq<(String, String)>) -> Seq<(Seq<char>, Seq<char>)> {
    v.map_values(|p: (String, String)| (p.0@, p.1@))
}

/// The theme entry, if a theme is set.
pub open spec fn theme_entries(theme: Option<Seq<char>>) -> Seq<(Seq<char>, Seq<char>)> {
    match theme {
        Some(t) => seq![(THEME_VAR@, t)],
        None => Seq::empty(),
    }
}

/// The filter entry, if a filter is set.
pub open spec fn filter_entries(filter: Option<Seq<Seq<char>>>) -> Seq<(Seq<char>, Seq<char>)> {
    match filter {
        Some(f) => seq![(FILTER_VAR@, comma_joined(f))],
        None => Seq::empty(),
    }
}

impl UserSettings {
    /// The theme, as characters.
    pub open spec fn theme_view(&self) -> Option<Seq<char>> {
        match self.preferred_theme {
            Some(t) => Some(t@),
            None => None,
        }
    }

    /// The component filter, as a sequence of character sequences.
    pub open spec fn filter_view(&self) -> Option<Seq<Seq<char>>> {
        match self.component_filter {
            Some(f) => Some(strings_view(f@)),
            None => None,
        }
    }

    /// The helper's environment for these settings: the theme first, then the
    /// filter, each only when set.
    pub open spec fn env_spec(&self) -> Seq<(Seq<char>, Seq<char>)> {
        theme_entries(self.theme_view()) + filter_entries(self.filter_view())
    }

    /// Settings with both options absent, which is what missing settings mean.
    pub fn empty() -> (r: UserSettings)
        ensures
            r.preferred_theme is None,
            r.component_filter is None,
    {
        UserSettings { preferred_theme: None, component_filter: None }
    }

    /// Builds the helper's environment from these settings.
    pub fn env(&self) -> (r: Vec<(String, String)>)
        ensures
            env_view(r@) == self.env_spec(),
    {
        let mut env: Vec<(String, String)> = Vec::new();
        if let Some(theme) = &self.preferred_theme {
            env.push((String::from_str(THEME_VAR), theme.clone()));
        }
        if let Some(filter) = &self.component_filter {
            env.push((String::from_str(FILTER_VAR), join_components(filter)));
        }
        assert(env_view(env@) =~= self.env_spec());
        env
    }
}

/// Joins the component names with single commas, keeping their order.
pub fn join_components(parts: &Vec<String>) -> (r: String)
    ensures
        r@ == comma_joined(strings_view(parts@)),
{
    let mut out = String::new();
    let n = parts.len();
    let mut i: usize = 0;
    while i < n
        invariant
            n == parts@.len(),
            i <= n,
            out@ == comma_joined(strings_view(parts@).take(i as int)),
        decreases n - i,
    {
        proof {
            let all = strings_view(parts@);
            let next = all.take(i as int + 1);
            assert(next.drop_last() =~= all.take(i as int));
            assert(next.last() == parts@[i as int]@);
            reveal_strlit(",");
        }
        if i > 0 {
            out.append(",");
        }
        out.append(parts[i].as_str());
        i = i + 1;
    }
    assert(strings_view(parts@).take(n as int) =~= strings_view(parts@));
    out
}

/// The summed lengths of the parts.
pub open spec fn total_len(parts: Seq<Seq<char>>) -> nat
    decreases parts.len(),
{
    if parts.len() == 0 {
        0
    } else {
        total_len(parts.drop_last()) + parts.last().len()
    }
}

/// Joining adds nothing but the separators: one comma between each two
/// neighbouring parts.
pub proof fn lemma_join_len(parts: Seq<Seq<char>>)
    requires
        parts.len() > 0,
    ensures
        comma_joined(parts).len() == total_len(parts) + parts.len() - 1,
    decreases parts.len(),
{
    if parts.len() > 1 {
        lemma_join_len(parts.drop_last());
    } else {
        assert(total_len(parts.drop_last()) == 0);
    }
}

/// Joining keeps the order: a part put after the others comes last in the
/// joined text, behind a single comma.
pub proof fn lemma_join_push(parts: Seq<Seq<char>>, p: Seq<char>)
    requires
        parts.len() > 0,
    ensures
        comma_joined(parts.push(p)) == comma_joined(parts) + seq![','] + p,
{
    assert(parts.push(p).drop_last() =~= parts);
}

/// The environment holds a theme entry exactly when a theme is set and a
/// filter entry exactly when a filter is set; the theme entry comes first;
/// the filter's value is its components joined by commas.
pub proof fn lemma_env_entries(s: UserSettings)
    ensures
        (exists|i: int| 0 <= i < s.env_spec().len() && #[trigger] s.env_spec()[i].0 == THEME_VAR@)
            <==> s.preferred_theme is Some,
        (exists|i: int| 0 <= i < s.env_spec().len() && #[trigger] s.env_spec()[i].0 == FILTER_VAR@)
            <==> s.component_filter is Some,
        s.env_spec().len() == (if s.preferred_theme is Some { 1int } else { 0 }) + (
        if s.component_filter is Some {
            1int
        } else {
            0
        }),
        s.preferred_theme is Some ==> s.env_spec()[0] == (THEME_VAR@, s.preferred_theme->0@),
        s.component_filter is Some ==> s.env_spec()[s.env_spec().len() - 1] == (
            FILTER_VAR@,
            comma_joined(strings_view(s.component_filter->0@)),
        ),
{
    reveal_strlit("MUI_PREFERRED_THEME");
    reveal_strlit("MUI_COMPONENT_FILTER");
    assert(THEME_VAR@.len() != FILTER_VAR@.len());
    let e = s.env_spec();
    if s.preferred_theme is Some {
        assert(e[0].0 == THEME_VAR@);
    }
    if s.component_filter is Some {
        assert(e[e.len() - 1].0 == FILTER_VAR@);
    }
}

/// Set but empty options are not absent: an empty theme gives an empty theme
/// value, and an empty filter an empty filter value.
pub proof fn lemma_empty_values(s: UserSettings)
    ensures
        (s.preferred_theme is Some && s.preferred_theme->0@.len() == 0) ==> s.env_spec()[0] == (
        THEME_VAR@,
        Seq::<char>::empty(),
        ),
        (s.component_filter is Some && s.component_filter->0@.len() == 0) ==> s.env_spec()[
        s.env_spec().len() - 1] == (FILTER_VAR@, Seq::<char>::empty()),
{
    if s.preferred_theme is Some && s.preferred_theme->0@.len() == 0 {
        assert(s.preferred_theme->0@ =~= Seq::<char>::empty());
    }
    if s.component_filter is Some && s.component_filter->0@.len() == 0 {
        assert(strings_view(s.component_filter->0@) =~= Seq::<Seq<char>>::empty());
    }
}

} // verus!
