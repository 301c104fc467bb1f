//! Descriptor locations and the fixed text the pipeline uses: the repository
//! URL template, the artifact path template, the installer command line, and
//! the progress messages.

use vstd::prelude::*;
use vstd::string::StringExecFns;

verus! {

/// The downloaded descriptor file: which package it names, where it was
/// persisted, and the bytes-as-text it holds.
#[derive(Debug, PartialEq, Eq)]
pub struct DescriptorArtifact {
    pub identifier: String,
    pub path: String,
    pub content: String,
}

impl Clone for DescriptorArtifact {
    fn clone(&self) -> (r: Self)
        ensures
            r == *self,
    {
        DescriptorArtifact {
            identifier: self.identifier.clone(),
            path: self.path.clone(),
            content: self.content.clone(),
        }
    }
}

/// The mathematical image of a [`DescriptorArtifact`].
pub struct SpecArtifact {
    pub identifier: Seq<char>,
    pub path: Seq<char>,
    pub content: Seq<char>,
}

impl View for DescriptorArtifact {
    type V = SpecArtifact;

    open spec fn view(&self) -> SpecArtifact {
        SpecArtifact { identifier: self.identifier@, path: self.path@, content: self.content@ }
    }
}

/// The descriptor URL: `<base>/<identifier>.flatpakref` under the fixed
/// repository base.
pub open spec fn spec_url(id: Seq<char>) -> Seq<char> {
    "https://dl.flathub.org/repo/appstream/"@ + id + ".flatpakref"@
}

/// The artifact path: `<tmp-dir>/<identifier>.flatpakref`.
pub open spec fn spec_artifact_path(tmp_dir: Seq<char>, id: Seq<char>) -> Seq<char> {
    tmp_dir + "/"@ + id + ".flatpakref"@
}

/// The notification text emitted before the network request.
pub open spec fn spec_pre_fetch_text(url: Seq<char>) -> Seq<char> {
    "Descargando referencia desde "@ + url
}

/// The notification text emitted once the artifact is persisted.
pub open spec fn spec_post_fetch_text(path: Seq<char>) -> Seq<char> {
    "✓ Referencia descargada: \""@ + path + "\""@
}

/// The notification text emitted just before spawning the installer.
pub open spec fn spec_spawn_text() -> Seq<char> {
    "Iniciando instalación desde archivo local..."@
}

/// The installer executable's name.
pub open spec fn spec_installer_program() -> Seq<char> {
    "flatpak"@
}

/// The installer's argument list: fixed flags, then the artifact path last.
pub open spec fn spec_installer_args(path: Seq<char>) -> Seq<Seq<char>> {
    seq!["install"@, "-y"@, "--user"@, path]
}

/// Builds the descriptor URL for an identifier.
pub fn descriptor_url(id: &str) -> (r: String)
    ensures
        r@ == spec_url(id@),
{
    let mut s = String::from_str("https://dl.flathub.org/repo/appstream/");
    s.append(id);
    s.append(".flatpakref");
    s
}

/// Builds the artifact path for an identifier under a temporary directory.
pub fn artifact_path(tmp_dir: &str, id: &str) -> (r: String)
    ensures
        r@ == spec_artifact_path(tmp_dir@, id@),
{
    let mut s = String::from_str(tmp_dir);
    s.append("/");
    s.append(id);
    s.append(".flatpakref");
    s
}

/// Builds the pre-fetch notification text.
pub fn pre_fetch_text(url: &str) -> (r: String)
    ensures
        r@ == spec_pre_fetch_text(url@),
{
    let mut s = String::from_str("Descargando referencia desde ");
    s.append(url);
    s
}

/// Builds the post-fetch notification text.
pub fn post_fetch_text(path: &str) -> (r: String)
    ensures
        r@ == spec_post_fetch_text(path@),
{
    let mut s = String::from_str("✓ Referencia descargada: \"");
    s.append(path);
    s.append("\"");
    s
}

/// Builds the pre-spawn notification text.
pub fn spawn_text() -> (r: String)
    ensures
        r@ == spec_spawn_text(),
{
    String::from_str("Iniciando instalación desde archivo local...")
}

/// The installer executable's name.
pub fn installer_program() -> (r: String)
    ensures
        r@ == spec_installer_program(),
{
    String::from_str("flatpak")
}

/// Builds the installer's argument list; the artifact path is the last
/// argument.
pub fn installer_args(path: &str) -> (r: Vec<String>)
    ensures
        r.deep_view() == spec_installer_args(path@),
        r.deep_view().len() == 4,
        r.deep_view().last() == path@,
{
    let mut v: Vec<String> = Vec::new();
    v.push(String::from_str("install"));
    v.push(String::from_str("-y"));
    v.push(String::from_str("--user"));
    v.push(String::from_str(path));
    proof {
        assert(v.deep_view() =~= spec_installer_args(path@));
    }
    v
}

} // verus!
