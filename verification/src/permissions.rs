//! Document permission flags.
use vstd::prelude::*;

verus! {

/// Permissions declared by an encrypted document.
///
/// These are advisory: any tool holding the decryption key can ignore them.
/// EasyPDF honors them, and does not present them as a security control.
#[derive(Debug, Clone, Copy, PartialEq, Eq, Structural)]
pub struct Permissions {
    /// Printing is permitted.
    pub print: bool,
    /// High-resolution printing is permitted.
    pub print_high_quality: bool,
    /// Content modification is permitted.
    pub modify: bool,
    /// Text and graphics extraction is permitted.
    pub copy: bool,
    /// Annotation and form filling are permitted.
    pub annotate: bool,
    /// Filling existing form fields is permitted.
    pub fill_forms: bool,
    /// Extraction for accessibility is permitted.
    ///
    /// Allowed regardless of other flags: denying assistive technology is a
    /// use of the flag that is not honored.
    pub accessibility: bool,
    /// Page assembly (insert, rotate, delete) is permitted.
    pub assemble: bool,
}

impl Default for Permissions {
    /// Everything permitted — the correct default for an unencrypted document.
    fn default() -> (permissions: Permissions)
        ensures
            permissions == (Permissions {
                print: true,
                print_high_quality: true,
                modify: true,
                copy: true,
                annotate: true,
                fill_forms: true,
                accessibility: true,
                assemble: true,
            }),
    {
        Permissions {
            print: true,
            print_high_quality: true,
            modify: true,
            copy: true,
            annotate: true,
            fill_forms: true,
            accessibility: true,
            assemble: true,
        }
    }
}

impl Permissions {
    /// The most restrictive set a document can declare.
    ///
    /// Accessibility stays enabled deliberately.
    pub fn restricted() -> (permissions: Permissions)
        ensures
            permissions == (Permissions {
                print: false,
                print_high_quality: false,
                modify: false,
                copy: false,
                annotate: false,
                fill_forms: false,
                accessibility: true,
                assemble: false,
            }),
    {
        Permissions {
            print: false,
            print_high_quality: false,
            modify: false,
            copy: false,
            annotate: false,
            fill_forms: false,
            accessibility: true,
            assemble: false,
        }
    }
}

} // verus!
