//! The one operation of this library: appending the application's fixed
//! icon-resource path to the toolkit's default icon theme.

use crate::icon_theme::IconTheme;
use crate::icon_theme::ToolkitContext;
use vstd::prelude::*;

verus! {

/// The fixed resource path under which the application's bundled icons live.
pub open spec fn spec_icon_resource_path() -> Seq<char> {
    "/com/github/wwmm/pulseeffects/icons"@
}

/// Returns the fixed icon-resource path. It is a compile-time constant:
/// not configurable, not read from the environment or a file.
pub fn icon_resource_path() -> (path: &'static str)
    ensures
        path@ == spec_icon_resource_path(),
{
    "/com/github/wwmm/pulseeffects/icons"
}

/// What one registration does to a theme's search paths: it appends the
/// fixed icon-resource path at the end.
pub open spec fn spec_register(paths: Seq<Seq<char>>) -> Seq<Seq<char>> {
    paths.push(spec_icon_resource_path())
}

/// The search paths after `n` registrations in a row.
pub open spec fn spec_register_n(paths: Seq<Seq<char>>, n: nat) -> Seq<Seq<char>>
    decreases n,
{
    if n == 0 {
        paths
    } else {
        spec_register(spec_register_n(paths, (n - 1) as nat))
    }
}

/// Appends the fixed icon-resource path to the given theme's search paths.
pub fn add_icon_resource_path(theme: &mut IconTheme)
    ensures
        final(theme)@ == spec_register(old(theme)@),
        final(theme)@.contains(spec_icon_resource_path()),
{
    let path = icon_resource_path();
    theme.add_resource_path(path.to_owned());
    proof {
        lemma_registration_adds_path(old(theme)@);
    }
}

/// Registers the fixed icon-resource path with the context's default icon
/// theme. Returns whether registration happened: it does exactly when a
/// default theme is available. Where none is, the context is left untouched;
/// the caller sees the failure in the returned value, as the toolkit would
/// report it.
pub fn register_icon_path(ctx: &mut ToolkitContext) -> (registered: bool)
    ensures
        registered == old(ctx).default_theme is Some,
        old(ctx).default_theme matches Some(theme) ==> final(ctx).default_theme matches Some(
            registered_theme,
        ) && registered_theme@ == spec_register(theme@),
        registered ==> (final(ctx).default_theme matches Some(registered_theme)
            && registered_theme@.contains(spec_icon_resource_path())),
        old(ctx).default_theme is None ==> *final(ctx) == *old(ctx),
{
    match &mut ctx.default_theme {
        Some(theme) => {
            add_icon_resource_path(theme);
            true
        },
        None => false,
    }
}

/// After a registration the fixed icon-resource path is present in the
/// search paths, whatever they held before.
pub proof fn lemma_registration_adds_path(paths: Seq<Seq<char>>)
    ensures
        spec_register(paths).contains(spec_icon_resource_path()),
{
    assert(spec_register(paths)[paths.len() as int] == spec_icon_resource_path());
}

/// A registration removes nothing: every search path present before is
/// still present after.
pub proof fn lemma_registration_preserves_paths(paths: Seq<Seq<char>>, p: Seq<char>)
    requires
        paths.contains(p),
    ensures
        spec_register(paths).contains(p),
{
    let i = choose|i: int| 0 <= i < paths.len() && paths[i] == p;
    assert(spec_register(paths)[i] == p);
}

/// Registering any number of times (at least once) leaves the fixed
/// icon-resource path present in the search paths.
pub proof fn lemma_repeated_registration_keeps_path(paths: Seq<Seq<char>>, n: nat)
    requires
        1 <= n,
    ensures
        spec_register_n(paths, n).contains(spec_icon_resource_path()),
    decreases n,
{
    if n == 1 {
        assert(spec_register_n(paths, 0) == paths);
        lemma_registration_adds_path(paths);
    } else {
        lemma_repeated_registration_keeps_path(paths, (n - 1) as nat);
        lemma_registration_preserves_paths(
            spec_register_n(paths, (n - 1) as nat),
            spec_icon_resource_path(),
        );
    }
}

} // verus!
