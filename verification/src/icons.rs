//! The icons a snippet can carry, offered to the editing form.

use vstd::prelude::*;

verus! {

/// Mathematical image of an [`Icon`].
#[verifier::ext_equal]
pub ghost struct IconView {
    pub file: Seq<char>,
    pub display_name: Seq<char>,
}

/// An icon: a file under the static icon directory and the name the form
/// shows for it.
#[derive(Debug, PartialEq)]
pub struct Icon {
    pub file: String,
    pub display_name: String,
}

impl View for Icon {
    type V = IconView;

    open spec fn view(&self) -> IconView {
        IconView { file: self.file@, display_name: self.display_name@ }
    }
}

impl DeepView for Icon {
    type V = IconView;

    open spec fn deep_view(&self) -> IconView {
        self.view()
    }
}

/// The full catalogue, in the order the form offers it.
pub open spec fn all_icons() -> Seq<IconView> {
    seq![
        IconView { file: "blender.png"@, display_name: "Blender3D"@ },
        IconView { file: "deepnight.png"@, display_name: "Deepnight"@ },
        IconView { file: "ferris-happy.svg"@, display_name: "Ferris"@ },
        IconView { file: "gamasutra.ico"@, display_name: "Gamasutra"@ },
        IconView { file: "gdc.svg"@, display_name: "GDC"@ },
        IconView { file: "github.png"@, display_name: "Github"@ },
        IconView { file: "safari.png"@, display_name: "Safari"@ },
        IconView { file: "swiftlang.svg"@, display_name: "Swift"@ },
        IconView { file: "youtube.svg"@, display_name: "Youtube"@ },
    ]
}

impl Icon {
    /// Every icon there is, in display order.
    pub fn get_all() -> (r: Vec<Icon>)
        ensures
            r.deep_view() == all_icons(),
    {
        let mut v: Vec<Icon> = Vec::new();
        // do try to keep these in alphanumeric order by filepath, pls
        v.push(Icon::new("blender.png", "Blender3D"));
        v.push(Icon::new("deepnight.png", "Deepnight"));
        v.push(Icon::new("ferris-happy.svg", "Ferris"));
        v.push(Icon::new("gamasutra.ico", "Gamasutra"));
        v.push(Icon::new("gdc.svg", "GDC"));
        v.push(Icon::new("github.png", "Github"));
        v.push(Icon::new("safari.png", "Safari"));
        v.push(Icon::new("swiftlang.svg", "Swift"));
        v.push(Icon::new("youtube.svg", "Youtube"));
        proof {
            assert(v.deep_view() =~= all_icons());
        }
        v
    }

    /// One icon, from its file name and display name.
    fn new(file: &str, display_name: &str) -> (r: Icon)
        ensures
            r.file@ == file@,
            r.display_name@ == display_name@,
    {
        Icon { file: file.to_owned(), display_name: display_name.to_owned() }
    }
}

} // verus!
