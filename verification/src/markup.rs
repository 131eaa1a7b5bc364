//! What a size observer renders.

use vstd::prelude::*;
use yew::NodeRef;

verus! {

/// The style of the hidden frame: it fills the box of its parent, which has
/// to be a positioned element, and can be neither seen nor touched.
pub const IFRAME_STYLE: &'static str =
    "display: block; position: absolute; top: 0; left: 0; width: 100%; height: 100%; overflow: hidden; border: 0; opacity: 0; pointer-events: none; z-index: -1;";

/// The one element that a size observer renders: an `iframe`.
#[derive(Debug)]
pub struct Frame {
    /// The value of the element's `style` attribute.
    pub style: &'static str,
    /// The reference that the host attaches to the rendered element.
    pub node_ref: NodeRef,
}

/// Whether `style` holds `declaration` at `at`, as a declaration of its own:
/// at the start of the text or after a blank.
pub open spec fn declares_at(style: Seq<char>, declaration: Seq<char>, at: int) -> bool {
    &&& 0 <= at
    &&& at + declaration.len() <= style.len()
    &&& style.subrange(at, at + declaration.len()) == declaration
    &&& at == 0 || style[at - 1] == ' '
}

/// Whether `style` holds `declaration` somewhere, as a declaration of its own.
pub open spec fn declares(style: Seq<char>, declaration: Seq<char>) -> bool {
    exists|at: int| declares_at(style, declaration, at)
}

/// The frame is laid out as a block that is taken out of the flow and pinned
/// to all four edges of its positioned parent, so that its box is the
/// parent's box.
pub open spec fn fills_parent(style: Seq<char>) -> bool {
    &&& declares(style, "display: block;"@)
    &&& declares(style, "position: absolute;"@)
    &&& declares(style, "top: 0;"@)
    &&& declares(style, "left: 0;"@)
    &&& declares(style, "width: 100%;"@)
    &&& declares(style, "height: 100%;"@)
}

/// The frame shows nothing, takes no pointer event, and lies below the
/// content beside it.
pub open spec fn imperceptible(style: Seq<char>) -> bool {
    &&& declares(style, "overflow: hidden;"@)
    &&& declares(style, "border: 0;"@)
    &&& declares(style, "opacity: 0;"@)
    &&& declares(style, "pointer-events: none;"@)
    &&& declares(style, "z-index: -1;"@)
}

/// The style of the hidden frame makes it fill its parent and keeps it out
/// of sight and out of reach.
pub proof fn frame_style_fills_parent_unseen()
    ensures
        fills_parent(IFRAME_STYLE@),
        imperceptible(IFRAME_STYLE@),
{
    let style = IFRAME_STYLE@;
    reveal_strlit("display: block; position: absolute; top: 0; left: 0; width: 100%; height: 100%; overflow: hidden; border: 0; opacity: 0; pointer-events: none; z-index: -1;");
    reveal_strlit("display: block;");
    reveal_strlit("position: absolute;");
    reveal_strlit("top: 0;");
    reveal_strlit("left: 0;");
    reveal_strlit("width: 100%;");
    reveal_strlit("height: 100%;");
    reveal_strlit("overflow: hidden;");
    reveal_strlit("border: 0;");
    reveal_strlit("opacity: 0;");
    reveal_strlit("pointer-events: none;");
    reveal_strlit("z-index: -1;");
    assert(declares_at(style, "display: block;"@, 0)) by {
        assert(style.subrange(0, 15) =~= "display: block;"@);
    }
    assert(declares_at(style, "position: absolute;"@, 16)) by {
        assert(style.subrange(16, 35) =~= "position: absolute;"@);
    }
    assert(declares_at(style, "top: 0;"@, 36)) by {
        assert(style.subrange(36, 43) =~= "top: 0;"@);
    }
    assert(declares_at(style, "left: 0;"@, 44)) by {
        assert(style.subrange(44, 52) =~= "left: 0;"@);
    }
    assert(declares_at(style, "width: 100%;"@, 53)) by {
        assert(style.subrange(53, 65) =~= "width: 100%;"@);
    }
    assert(declares_at(style, "height: 100%;"@, 66)) by {
        assert(style.subrange(66, 79) =~= "height: 100%;"@);
    }
    assert(declares_at(style, "overflow: hidden;"@, 80)) by {
        assert(style.subrange(80, 97) =~= "overflow: hidden;"@);
    }
    assert(declares_at(style, "border: 0;"@, 98)) by {
        assert(style.subrange(98, 108) =~= "border: 0;"@);
    }
    assert(declares_at(style, "opacity: 0;"@, 109)) by {
        assert(style.subrange(109, 120) =~= "opacity: 0;"@);
    }
    assert(declares_at(style, "pointer-events: none;"@, 121)) by {
        assert(style.subrange(121, 142) =~= "pointer-events: none;"@);
    }
    assert(declares_at(style, "z-index: -1;"@, 143)) by {
        assert(style.subrange(143, 155) =~= "z-index: -1;"@);
    }
}

} // verus!
