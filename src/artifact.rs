//! Artifact files: where each generated declaration is written, and how a written
//! declaration is set up for export.
use vstd::prelude::*;

verus! {

/// Who may see a declaration once the main crate has imported it.
#[derive(Debug, Clone, Copy, PartialEq, Eq, Structural)]
pub enum Visibility {
    Private,
    Public,
}

/// The compilation unit that generation runs for: the directory its artifacts go to
/// and the name of its package.
pub struct Unit {
    pub out_dir: String,
    pub package: String,
}

/// The file name prefix of artifacts for the unit's own use.
pub open spec fn private_prefix() -> Seq<char> {
    "/rustifact_"@
}

/// The file name prefix of artifacts to be exported from the unit.
pub open spec fn public_prefix() -> Seq<char> {
    "/rustifact__pub__"@
}

/// The path of the artifact for `symbol`.
pub open spec fn artifact_path(
    out_dir: Seq<char>,
    package: Seq<char>,
    symbol: Seq<char>,
    vis: Visibility,
) -> Seq<char> {
    let prefix = match vis {
        Visibility::Private => private_prefix(),
        Visibility::Public => public_prefix(),
    };
    out_dir + prefix + package + "_"@ + symbol + ".rs"@
}

/// The symbol under which a struct initialiser is stored.
pub open spec fn init_symbol(struct_name: Seq<char>, vals_name: Seq<char>) -> Seq<char> {
    struct_name + "_"@ + vals_name
}

/// The path of the artifact for `symbol` in `unit`.
pub fn path_for(unit: &Unit, symbol: &str, vis: Visibility) -> (r: String)
    ensures
        r@ == artifact_path(unit.out_dir@, unit.package@, symbol@, vis),
{
    let mut r = unit.out_dir.clone();
    match vis {
        Visibility::Private => r.append("/rustifact_"),
        Visibility::Public => r.append("/rustifact__pub__"),
    }
    r.append(unit.package.as_str());
    r.append("_");
    r.append(symbol);
    r.append(".rs");
    r
}

/// The path of the initialiser `vals_name` of the struct `struct_name` in `unit`.
pub fn init_path_for(unit: &Unit, struct_name: &str, vals_name: &str) -> (r: String)
    ensures
        r@ == artifact_path(
            unit.out_dir@,
            unit.package@,
            init_symbol(struct_name@, vals_name@),
            Visibility::Private,
        ),
{
    let mut symbol = String::from_str(struct_name);
    symbol.append("_");
    symbol.append(vals_name);
    path_for(unit, symbol.as_str(), Visibility::Private)
}

/// A symbol's private and public artifacts never share a path.
pub proof fn lemma_visibilities_apart(out_dir: Seq<char>, package: Seq<char>, symbol: Seq<char>)
    ensures
        artifact_path(out_dir, package, symbol, Visibility::Private) != artifact_path(
            out_dir,
            package,
            symbol,
            Visibility::Public,
        ),
{
    reveal_strlit("/rustifact_");
    reveal_strlit("/rustifact__pub__");
    assert(artifact_path(out_dir, package, symbol, Visibility::Private).len() + 6
        == artifact_path(out_dir, package, symbol, Visibility::Public).len());
}

/// The message given when a symbol is set up for export before it was written.
pub open spec fn export_error_text(id: Seq<char>) -> Seq<char> {
    "Couldn't find symbol "@ + id + " to setup export."@
        + "Ensure you call write_static (or another write_... function)"@ + "for "@ + id
        + " before allow_export"@
}

/// The message given when `id` is set up for export before any artifact was written
/// for it.
pub fn allow_export_error(id: &str) -> (r: String)
    ensures
        r@ == export_error_text(id@),
{
    let mut r = String::from_str("Couldn't find symbol ");
    r.append(id);
    r.append(" to setup export.");
    r.append("Ensure you call write_static (or another write_... function)");
    r.append("for ");
    r.append(id);
    r.append(" before allow_export");
    r
}

} // verus!
