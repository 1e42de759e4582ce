use vstd::prelude::*;
use vstd::string::*;

use crate::text::{i64_to_string, spec_i64_digits, spec_u64_digits, str_eq, u64_to_string};

verus! {

/// A single run parameter value. Wire data carries an untagged scalar; the
/// reader tags it by trying `bool`, `u64`, `i64`, decimal number, string, in
/// that order. A decimal (non-integer) number is held here by its rendered
/// text, which is all the environment translation reads of it.
#[derive(Debug, Clone, PartialEq, Eq)]
pub enum ParamValue {
    Bool(bool),
    PosInt(u64),
    NegInt(i64),
    Float(String),
    Str(String),
}

/// How a parameter value prints inside a `NAME=VALUE` environment entry.
pub open spec fn spec_render(v: ParamValue) -> Seq<char> {
    match v {
        ParamValue::Bool(b) => if b {
            "true"@
        } else {
            "false"@
        },
        ParamValue::PosInt(n) => spec_u64_digits(n as nat),
        ParamValue::NegInt(n) => spec_i64_digits(n as int),
        ParamValue::Float(t) => t@,
        ParamValue::Str(s) => s@,
    }
}

/// Renders a parameter value to the text that stands after `=` in its
/// environment entry.
pub fn render_value(v: &ParamValue) -> (r: String)
    ensures
        r@ == spec_render(*v),
{
    match v {
        ParamValue::Bool(b) => {
            if *b {
                String::from_str("true")
            } else {
                String::from_str("false")
            }
        },
        ParamValue::PosInt(n) => u64_to_string(*n),
        ParamValue::NegInt(n) => i64_to_string(*n),
        ParamValue::Float(t) => t.clone(),
        ParamValue::Str(s) => s.clone(),
    }
}

/// Environment names that a parameter may never shadow: such parameters are
/// silently dropped when the parameter map is lowered to an environment.
pub open spec fn denylisted(name: Seq<char>) -> bool {
    ||| name == "HOSTNAME"@
    ||| name == "PATH"@
    ||| name == "HOME"@
    ||| name == "LANG"@
    ||| name == "TERM"@
    ||| name == "LD_LIBRARY_PATH"@
    ||| name == "LD_PRELOAD"@
    ||| name == "PYTHONPATH"@
    ||| name == "PERLLIB"@
    ||| name == "RUBYLIB"@
    ||| name == "CLASSPATH"@
    ||| name == "NODE_PATH"@
    ||| name == "IPOL_DEMOID"@
    ||| name == "IPOL_KEY"@
}

/// A parameter name may enter the environment exactly when it is not on the
/// denylist. Total and side-effect-free.
pub fn is_valid_param_name(name: &str) -> (r: bool)
    ensures
        r == !denylisted(name@),
{
    !(str_eq(name, "HOSTNAME") || str_eq(name, "PATH") || str_eq(name, "HOME") || str_eq(
        name,
        "LANG",
    ) || str_eq(name, "TERM") || str_eq(name, "LD_LIBRARY_PATH") || str_eq(name, "LD_PRELOAD")
        || str_eq(name, "PYTHONPATH") || str_eq(name, "PERLLIB") || str_eq(name, "RUBYLIB")
        || str_eq(name, "CLASSPATH") || str_eq(name, "NODE_PATH") || str_eq(name, "IPOL_DEMOID")
        || str_eq(name, "IPOL_KEY"))
}

/// A word character: what `demo_id`, `key` and the like are made of.
pub open spec fn is_word_char(c: char) -> bool {
    ||| c == '_'
    ||| 'a' <= c <= 'z'
    ||| 'A' <= c <= 'Z'
    ||| '0' <= c <= '9'
}

/// A well-formed identifier: one or more word characters.
pub open spec fn is_word_ident(s: Seq<char>) -> bool {
    s.len() > 0 && forall|i: int| 0 <= i < s.len() ==> is_word_char(s[i])
}

fn check_word_ident(s: &str) -> (r: bool)
    ensures
        r == is_word_ident(s@),
{
    let n = s.unicode_len();
    if n == 0 {
        return false;
    }
    let mut i: usize = 0;
    while i < n
        invariant
            n == s@.len(),
            i <= n,
            forall|j: int| 0 <= j < i ==> is_word_char(s@[j]),
        decreases n - i,
    {
        let c = s.get_char(i);
        let ok = c == '_' || ('a' <= c && c <= 'z') || ('A' <= c && c <= 'Z') || ('0' <= c && c
            <= '9');
        if !ok {
            return false;
        }
        i += 1;
    }
    true
}

/// Accepts a demo identifier: one or more letters, digits or underscores.
pub fn validate_demoid(s: &str) -> (r: bool)
    ensures
        r == is_word_ident(s@),
{
    check_word_ident(s)
}

/// Accepts a run key: same character class as a demo identifier.
pub fn validate_runkey(s: &str) -> (r: bool)
    ensures
        r == is_word_ident(s@),
{
    check_word_ident(s)
}

/// The run parameters: an ordered list of `(name, value)` pairs. Iteration
/// order is the insertion order; well-formed maps keep names unique.
#[derive(Debug, Clone, PartialEq, Eq)]
pub struct RunParams {
    pub entries: Vec<(String, ParamValue)>,
}

/// One `NAME=VALUE` environment entry.
pub open spec fn spec_env_entry(name: Seq<char>, v: ParamValue) -> Seq<char> {
    name + "="@ + spec_render(v)
}

/// The environment vector an execution receives: `IPOL_DEMOID` and `IPOL_KEY`
/// first, then one entry per parameter whose name is not denylisted, in
/// parameter order.
pub open spec fn spec_env(
    entries: Seq<(String, ParamValue)>,
    demo_id: Seq<char>,
    key: Seq<char>,
) -> Seq<Seq<char>>
    decreases entries.len(),
{
    if entries.len() == 0 {
        seq!["IPOL_DEMOID="@ + demo_id, "IPOL_KEY="@ + key]
    } else {
        let front = spec_env(entries.drop_last(), demo_id, key);
        let last = entries.last();
        if denylisted(last.0@) {
            front
        } else {
            front.push(spec_env_entry(last.0@, last.1))
        }
    }
}

impl RunParams {
    /// An empty parameter map.
    pub fn new() -> (r: RunParams)
        ensures
            r.entries@ =~= Seq::<(String, ParamValue)>::empty(),
    {
        RunParams { entries: Vec::new() }
    }

    /// Appends one parameter.
    pub fn push(&mut self, name: String, value: ParamValue)
        ensures
            final(self).entries@ == old(self).entries@.push((name, value)),
    {
        self.entries.push((name, value));
    }

    /// Lowers the parameters to the environment an execution receives.
    pub fn to_env_vec(&self, demo_id: &str, key: &str) -> (r: Vec<String>)
        ensures
            r@.map_values(|s: String| s@) == spec_env(self.entries@, demo_id@, key@),
    {
        let mut r: Vec<String> = Vec::new();
        let mut head = String::from_str("IPOL_DEMOID=");
        head.append(demo_id);
        r.push(head);
        let mut head2 = String::from_str("IPOL_KEY=");
        head2.append(key);
        r.push(head2);
        proof {
            assert(r@.map_values(|s: String| s@) =~= spec_env(
                self.entries@.take(0),
                demo_id@,
                key@,
            ));
        }
        let n = self.entries.len();
        let mut i: usize = 0;
        while i < n
            invariant
                n == self.entries@.len(),
                i <= n,
                r@.map_values(|s: String| s@) == spec_env(
                    self.entries@.take(i as int),
                    demo_id@,
                    key@,
                ),
            decreases n - i,
        {
            let pair = &self.entries[i];
            if is_valid_param_name(pair.0.as_str()) {
                let mut e = pair.0.clone();
                e.append("=");
                let rendered = render_value(&pair.1);
                e.append(rendered.as_str());
                proof {
                    assert(e@ == spec_env_entry(self.entries@[i as int].0@, self.entries@[i as int].1));
                }
                r.push(e);
            }
            proof {
                assert(self.entries@.take(i + 1 as int).drop_last() =~= self.entries@.take(
                    i as int,
                ));
                assert(self.entries@.take(i + 1 as int).last() == self.entries@[i as int]);
                assert(r@.map_values(|s: String| s@) =~= spec_env(
                    self.entries@.take(i + 1 as int),
                    demo_id@,
                    key@,
                ));
            }
            i += 1;
        }
        proof {
            assert(self.entries@.take(n as int) =~= self.entries@);
        }
        r
    }
}

/// Whether some entry carries the given name.
pub open spec fn spec_has_name(entries: Seq<(String, ParamValue)>, name: Seq<char>) -> bool {
    exists|j: int| 0 <= j < entries.len() && #[trigger] entries[j].0@ == name
}

/// Whether the map holds a parameter of the given name.
pub fn has_name(params: &RunParams, name: &str) -> (r: bool)
    ensures
        r == spec_has_name(params.entries@, name@),
{
    let n = params.entries.len();
    let mut i: usize = 0;
    while i < n
        invariant
            n == params.entries@.len(),
            i <= n,
            forall|j: int| 0 <= j < i ==> #[trigger] params.entries@[j].0@ != name@,
        decreases n - i,
    {
        if str_eq(params.entries[i].0.as_str(), name) {
            proof {
                assert(params.entries@[i as int].0@ == name@);
            }
            return true;
        }
        i += 1;
    }
    false
}

/// The base entries that survive a merge: those whose names the overriding
/// map does not carry, in their original order.
pub open spec fn spec_kept(
    base: Seq<(String, ParamValue)>,
    extra: Seq<(String, ParamValue)>,
) -> Seq<(String, ParamValue)>
    decreases base.len(),
{
    if base.len() == 0 {
        Seq::empty()
    } else {
        let front = spec_kept(base.drop_last(), extra);
        if spec_has_name(extra, base.last().0@) {
            front
        } else {
            front.push(base.last())
        }
    }
}

/// Merges two parameter maps: on a shared name the entry of `extra` wins;
/// every other entry of `base` is kept, and all of `extra` follows.
pub fn merge(base: RunParams, extra: RunParams) -> (r: RunParams)
    ensures
        r.entries@ == spec_kept(base.entries@, extra.entries@) + extra.entries@,
{
    let ghost base0 = base.entries@;
    let ghost extra0 = extra.entries@;
    let mut rest = base;
    let mut out: Vec<(String, ParamValue)> = Vec::new();
    let ghost mut i: int = 0;
    while rest.entries.len() > 0
        invariant
            0 <= i <= base0.len(),
            rest.entries@ =~= base0.skip(i),
            extra.entries@ == extra0,
            out@ == spec_kept(base0.take(i), extra0),
        decreases rest.entries@.len(),
    {
        let e = rest.entries.remove(0);
        proof {
            assert(base0.skip(i).remove(0) =~= base0.skip(i + 1));
            assert(e == base0[i]);
        }
        if !has_name(&extra, e.0.as_str()) {
            out.push(e);
        }
        proof {
            assert(base0.take(i + 1).drop_last() =~= base0.take(i));
            assert(base0.take(i + 1).last() == base0[i]);
            assert(out@ =~= spec_kept(base0.take(i + 1), extra0));
            i = i + 1;
        }
    }
    proof {
        assert(base0.take(i) =~= base0);
    }
    let mut rest2 = extra;
    let ghost mut k: int = 0;
    while rest2.entries.len() > 0
        invariant
            0 <= k <= extra0.len(),
            rest2.entries@ =~= extra0.skip(k),
            out@ == spec_kept(base0, extra0) + extra0.take(k),
        decreases rest2.entries@.len(),
    {
        let e = rest2.entries.remove(0);
        proof {
            assert(extra0.skip(k).remove(0) =~= extra0.skip(k + 1));
            assert(e == extra0[k]);
        }
        out.push(e);
        proof {
            assert(out@ =~= spec_kept(base0, extra0) + extra0.take(k + 1));
            k = k + 1;
        }
    }
    proof {
        assert(extra0.take(k) =~= extra0);
    }
    RunParams { entries: out }
}

/// The environment always starts with the demo identifier and the run key,
/// and every further entry comes from a parameter whose name is off the
/// denylist, rendered as `NAME=VALUE`.
pub proof fn lemma_env_shape(entries: Seq<(String, ParamValue)>, demo_id: Seq<char>, key: Seq<char>)
    ensures
        spec_env(entries, demo_id, key).len() >= 2,
        spec_env(entries, demo_id, key)[0] == "IPOL_DEMOID="@ + demo_id,
        spec_env(entries, demo_id, key)[1] == "IPOL_KEY="@ + key,
        forall|k: int|
            2 <= k < spec_env(entries, demo_id, key).len() ==> exists|j: int|
                0 <= j < entries.len() && !denylisted(#[trigger] entries[j].0@)
                    && #[trigger] spec_env(entries, demo_id, key)[k] == spec_env_entry(
                    entries[j].0@,
                    entries[j].1,
                ),
    decreases entries.len(),
{
    if entries.len() == 0 {
    } else {
        let front = entries.drop_last();
        lemma_env_shape(front, demo_id, key);
        let env = spec_env(entries, demo_id, key);
        let fenv = spec_env(front, demo_id, key);
        let last = entries.last();
        assert forall|k: int| 2 <= k < env.len() implies exists|j: int|
            0 <= j < entries.len() && !denylisted(#[trigger] entries[j].0@)
                && #[trigger] spec_env(entries, demo_id, key)[k] == spec_env_entry(
                entries[j].0@,
                entries[j].1,
            ) by {
            if k < fenv.len() {
                let j = choose|j: int|
                    0 <= j < front.len() && !denylisted(front[j].0@) && fenv[k] == spec_env_entry(
                        front[j].0@,
                        front[j].1,
                    );
                assert(entries[j] == front[j]);
                assert(env[k] == fenv[k]);
            } else {
                let j = entries.len() - 1;
                assert(entries[j] == last);
                assert(!denylisted(last.0@));
                assert(env[k] == spec_env_entry(last.0@, last.1));
            }
        }
    }
}

} // verus!
