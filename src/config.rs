//! Configuration files carried by environment variables: a variable whose name
//! starts with `CONFIGFILE_` holds a header line `#TARGET:<path>` followed by
//! the file's contents.
use vstd::prelude::*;
use vstd::slice::{slice_subrange, slice_to_vec};
use crate::text::{find_byte, find_from, has_prefix, starts_with, trim, trim_bounds, NEWLINE};

verus! {

/// `CONFIGFILE_`: the prefix of the variables that carry a file.
pub open spec fn config_prefix() -> Seq<u8> {
    seq![67u8, 79, 78, 70, 73, 71, 70, 73, 76, 69, 95]
}

/// `#TARGET:`: the directive that opens a variable's header line.
pub open spec fn target_directive() -> Seq<u8> {
    seq![35u8, 84, 65, 82, 71, 69, 84, 58]
}

fn config_prefix_bytes() -> (r: Vec<u8>)
    ensures
        r@ == config_prefix(),
{
    let r: Vec<u8> = vec![67u8, 79, 78, 70, 73, 71, 70, 73, 76, 69, 95];
    assert(r@ =~= config_prefix());
    r
}

fn target_directive_bytes() -> (r: Vec<u8>)
    ensures
        r@ == target_directive(),
{
    let r: Vec<u8> = vec![35u8, 84, 65, 82, 71, 69, 84, 58];
    assert(r@ =~= target_directive());
    r
}

/// Why a configuration variable was rejected.
#[derive(Debug, Clone, Copy, PartialEq, Eq, Structural)]
pub enum ConfigError {
    /// The value holds no line break, so it has no header line.
    MissingHeader,
    /// The header line does not start with `#TARGET:`.
    BadDirective,
    /// The target path is empty once surrounding whitespace is removed.
    EmptyPath,
}

/// One file to write: where, and what.
#[derive(Debug, PartialEq, Eq)]
pub struct ConfigFile {
    pub path: Vec<u8>,
    pub contents: Vec<u8>,
}

impl ConfigFile {
    pub open spec fn view(&self) -> (Seq<u8>, Seq<u8>) {
        (self.path@, self.contents@)
    }
}

/// What one variable `key` = `value` asks for: nothing when it carries no
/// file, the file when it is well formed, or why it is not.
pub open spec fn spec_parse_var(key: Seq<u8>, value: Seq<u8>) -> Result<
    Option<(Seq<u8>, Seq<u8>)>,
    ConfigError,
> {
    if !has_prefix(key, config_prefix()) {
        Ok(None)
    } else {
        let nl = find_from(value, NEWLINE, 0);
        if nl >= value.len() {
            Err(ConfigError::MissingHeader)
        } else {
            let header = value.subrange(0, nl);
            if !has_prefix(header, target_directive()) {
                Err(ConfigError::BadDirective)
            } else {
                let path = trim(header.subrange(target_directive().len() as int, nl));
                if path.len() == 0 {
                    Err(ConfigError::EmptyPath)
                } else {
                    Ok(Some((path, value.subrange(nl + 1, value.len() as int))))
                }
            }
        }
    }
}

/// Reads one environment variable.
pub fn parse_config_var(key: &[u8], value: &[u8]) -> (r: Result<Option<ConfigFile>, ConfigError>)
    ensures
        match (r, spec_parse_var(key@, value@)) {
            (Ok(None), Ok(None)) => true,
            (Ok(Some(f)), Ok(Some(g))) => f.view() == g,
            (Err(e), Err(k)) => e == k,
            _ => false,
        },
{
    let prefix = config_prefix_bytes();
    if !starts_with(key, prefix.as_slice()) {
        return Ok(None);
    }
    let nl = find_byte(value, NEWLINE, 0);
    if nl >= value.len() {
        return Err(ConfigError::MissingHeader);
    }
    let header = slice_subrange(value, 0, nl);
    let directive = target_directive_bytes();
    if !starts_with(header, directive.as_slice()) {
        return Err(ConfigError::BadDirective);
    }
    let raw = slice_subrange(header, directive.len(), nl);
    let (lo, hi) = trim_bounds(raw);
    if lo == hi {
        return Err(ConfigError::EmptyPath);
    }
    let path = slice_to_vec(slice_subrange(raw, lo, hi));
    let contents = slice_to_vec(slice_subrange(value, nl + 1, value.len()));
    Ok(Some(ConfigFile { path, contents }))
}

/// The views of a list of variables.
pub open spec fn vars_view(vars: Seq<(Vec<u8>, Vec<u8>)>) -> Seq<(Seq<u8>, Seq<u8>)> {
    vars.map_values(|v: (Vec<u8>, Vec<u8>)| (v.0@, v.1@))
}

/// The views of a list of files.
pub open spec fn files_view(files: Seq<ConfigFile>) -> Seq<(Seq<u8>, Seq<u8>)> {
    files.map_values(|f: ConfigFile| f.view())
}

/// The files that `vars` ask for, in their order; or the position of the
/// first malformed variable and why it was rejected.
pub open spec fn spec_plan(vars: Seq<(Seq<u8>, Seq<u8>)>) -> Result<Seq<(Seq<u8>, Seq<u8>)>, (int, ConfigError)>
    decreases vars.len(),
{
    if vars.len() == 0 {
        Ok(Seq::empty())
    } else {
        match spec_plan(vars.drop_last()) {
            Err(e) => Err(e),
            Ok(files) => match spec_parse_var(vars.last().0, vars.last().1) {
                Err(k) => Err((vars.len() - 1, k)),
                Ok(None) => Ok(files),
                Ok(Some(f)) => Ok(files.push(f)),
            },
        }
    }
}

/// Once a prefix of the variables is rejected, so is every longer list, for
/// the same variable and the same reason.
pub proof fn lemma_plan_err_extends(vars: Seq<(Seq<u8>, Seq<u8>)>, i: int)
    requires
        0 <= i <= vars.len(),
        spec_plan(vars.subrange(0, i)) is Err,
    ensures
        spec_plan(vars) == spec_plan(vars.subrange(0, i)),
    decreases vars.len() - i,
{
    if i < vars.len() {
        assert(vars.subrange(0, i + 1).drop_last() =~= vars.subrange(0, i));
        lemma_plan_err_extends(vars, i + 1);
    } else {
        assert(vars.subrange(0, i) =~= vars);
    }
}

/// A variable that was rejected: its position among the variables, and why.
#[derive(Debug, Clone, Copy, PartialEq, Eq, Structural)]
pub struct ConfigRejected {
    pub index: usize,
    pub error: ConfigError,
}

/// Reads every variable before any file is written: either all files that the
/// variables carry, in order, or the first malformed variable, in which case
/// no file is to be written at all.
pub fn plan_deployment(vars: &Vec<(Vec<u8>, Vec<u8>)>) -> (r: Result<Vec<ConfigFile>, ConfigRejected>)
    ensures
        match (r, spec_plan(vars_view(vars@))) {
            (Ok(files), Ok(g)) => files_view(files@) == g,
            (Err(e), Err(g)) => e.index == g.0 && e.error == g.1,
            _ => false,
        },
{
    let mut files: Vec<ConfigFile> = Vec::new();
    let mut i: usize = 0;
    assert(vars_view(vars@).subrange(0, 0) =~= Seq::<(Seq<u8>, Seq<u8>)>::empty());
    assert(files_view(files@) =~= Seq::<(Seq<u8>, Seq<u8>)>::empty());
    while i < vars.len()
        invariant
            i <= vars@.len(),
            spec_plan(vars_view(vars@).subrange(0, i as int)) == Ok::<_, (int, ConfigError)>(files_view(files@)),
        decreases vars@.len() - i,
    {
        let ghost vs = vars_view(vars@);
        assert(vs.subrange(0, i + 1).drop_last() =~= vs.subrange(0, i as int));
        assert(vs.subrange(0, i + 1).last() == vs[i as int]);
        let parsed = parse_config_var(vars[i].0.as_slice(), vars[i].1.as_slice());
        match parsed {
            Err(k) => {
                proof {
                    lemma_plan_err_extends(vs, i + 1);
                }
                return Err(ConfigRejected { index: i, error: k });
            },
            Ok(None) => {},
            Ok(Some(f)) => {
                let ghost old_files = files@;
                files.push(f);
                assert(files_view(files@) =~= files_view(old_files).push(f.view()));
            },
        }
        i = i + 1;
    }
    assert(vars_view(vars@).subrange(0, i as int) =~= vars_view(vars@));
    Ok(files)
}

} // verus!
