//! Pixel-art icons built from stacked layers.
//!
//! An icon is a list of layers, drawn bottom first. A layer may have
//! variants for the layers drawn below it: a layer's image is its variant
//! for the nearest such layer, else its base image.
use vstd::prelude::*;

use crate::text::{ascii_lower, ascii_upper};

verus! {

/// A layer of an icon.
#[derive(Debug, Clone, Copy, PartialEq, Eq, Hash, Structural)]
pub enum Layer {
    Blank,
    Close,
    Drawer,
    Eraser,
    Export,
    File,
    Fill,
    Font,
    Glyph,
    Glyphset,
    Grab,
    In,
    Left,
    Line,
    New,
    Open,
    Out,
    Pen,
    Pentacom,
    Rectangle,
    Redo,
    Save,
    Settings,
    Undo,
    Zero,
    Zoom,
}

/// The `PascalCase` form of the rest of a `snake_case` name from position
/// `i`: underscores are dropped, the first letter of each word is made upper
/// case and the others lower case. `start` tells whether position `i`
/// begins a word.
pub open spec fn pascal_from(s: Seq<char>, i: int, start: bool) -> Seq<char>
    decreases s.len() - i,
{
    if i >= s.len() || i < 0 {
        Seq::empty()
    } else if s[i] == '_' {
        pascal_from(s, i + 1, true)
    } else {
        seq![if start { ascii_upper(s[i]) } else { ascii_lower(s[i]) }] + pascal_from(s, i + 1, false)
    }
}

/// The layer whose `PascalCase` name is `p`.
pub open spec fn layer_for_name(p: Seq<char>) -> Option<Layer> {
    if p == "Blank"@ {
        Some(Layer::Blank)
    } else if p == "Close"@ {
        Some(Layer::Close)
    } else if p == "Drawer"@ {
        Some(Layer::Drawer)
    } else if p == "Eraser"@ {
        Some(Layer::Eraser)
    } else if p == "Export"@ {
        Some(Layer::Export)
    } else if p == "File"@ {
        Some(Layer::File)
    } else if p == "Fill"@ {
        Some(Layer::Fill)
    } else if p == "Font"@ {
        Some(Layer::Font)
    } else if p == "Glyph"@ {
        Some(Layer::Glyph)
    } else if p == "Glyphset"@ {
        Some(Layer::Glyphset)
    } else if p == "Grab"@ {
        Some(Layer::Grab)
    } else if p == "In"@ {
        Some(Layer::In)
    } else if p == "Left"@ {
        Some(Layer::Left)
    } else if p == "Line"@ {
        Some(Layer::Line)
    } else if p == "New"@ {
        Some(Layer::New)
    } else if p == "Open"@ {
        Some(Layer::Open)
    } else if p == "Out"@ {
        Some(Layer::Out)
    } else if p == "Pen"@ {
        Some(Layer::Pen)
    } else if p == "Pentacom"@ {
        Some(Layer::Pentacom)
    } else if p == "Rectangle"@ {
        Some(Layer::Rectangle)
    } else if p == "Redo"@ {
        Some(Layer::Redo)
    } else if p == "Save"@ {
        Some(Layer::Save)
    } else if p == "Settings"@ {
        Some(Layer::Settings)
    } else if p == "Undo"@ {
        Some(Layer::Undo)
    } else if p == "Zero"@ {
        Some(Layer::Zero)
    } else if p == "Zoom"@ {
        Some(Layer::Zoom)
    } else {
        None
    }
}

/// The layer a `snake_case` name stands for: the one whose `PascalCase` name
/// is the name's `PascalCase` form.
pub open spec fn named_layer(name: Seq<char>) -> Option<Layer> {
    layer_for_name(pascal_from(name, 0, true))
}

/// Whether the characters `p` spell `s`.
fn chars_equal(p: &Vec<char>, s: &str) -> (r: bool)
    ensures
        r == (p@ == s@),
{
    let n = s.unicode_len();
    if p.len() != n {
        return false;
    }
    let mut i: usize = 0;
    while i < n
        invariant
            n == s@.len() == p@.len(),
            i <= n,
            forall|k: int| 0 <= k < i ==> p@[k] == s@[k],
        decreases n - i,
    {
        if p[i] != s.get_char(i) {
            return false;
        }
        i += 1;
    }
    assert(p@ =~= s@);
    true
}

/// The `PascalCase` form of a `snake_case` name.
fn pascal_case(name: &str) -> (p: Vec<char>)
    ensures
        p@ == pascal_from(name@, 0, true),
{
    let n = name.unicode_len();
    let mut out: Vec<char> = Vec::new();
    let mut start = true;
    let mut i: usize = 0;
    while i < n
        invariant
            n == name@.len(),
            i <= n,
            out@ + pascal_from(name@, i as int, start) == pascal_from(name@, 0, true),
        decreases n - i,
    {
        let c = name.get_char(i);
        if c == '_' {
            start = true;
        } else {
            let d = if start { crate::text::to_ascii_upper(c) } else { crate::text::to_ascii_lower(c) };
            proof {
                assert(out@.push(d) + pascal_from(name@, i + 1, false) =~= out@ + (seq![d] + pascal_from(name@, i + 1, false)));
            }
            out.push(d);
            start = false;
        }
        i += 1;
    }
    assert(out@ + pascal_from(name@, n as int, start) =~= out@);
    out
}

/// Looks a layer up by its `PascalCase` name.
fn layer_with_name(p: &Vec<char>) -> (r: Option<Layer>)
    ensures
        r == layer_for_name(p@),
{
    if chars_equal(p, "Blank") {
        return Some(Layer::Blank);
    }
    if chars_equal(p, "Close") {
        return Some(Layer::Close);
    }
    if chars_equal(p, "Drawer") {
        return Some(Layer::Drawer);
    }
    if chars_equal(p, "Eraser") {
        return Some(Layer::Eraser);
    }
    if chars_equal(p, "Export") {
        return Some(Layer::Export);
    }
    if chars_equal(p, "File") {
        return Some(Layer::File);
    }
    if chars_equal(p, "Fill") {
        return Some(Layer::Fill);
    }
    if chars_equal(p, "Font") {
        return Some(Layer::Font);
    }
    if chars_equal(p, "Glyph") {
        return Some(Layer::Glyph);
    }
    if chars_equal(p, "Glyphset") {
        return Some(Layer::Glyphset);
    }
    if chars_equal(p, "Grab") {
        return Some(Layer::Grab);
    }
    if chars_equal(p, "In") {
        return Some(Layer::In);
    }
    if chars_equal(p, "Left") {
        return Some(Layer::Left);
    }
    if chars_equal(p, "Line") {
        return Some(Layer::Line);
    }
    if chars_equal(p, "New") {
        return Some(Layer::New);
    }
    if chars_equal(p, "Open") {
        return Some(Layer::Open);
    }
    if chars_equal(p, "Out") {
        return Some(Layer::Out);
    }
    if chars_equal(p, "Pen") {
        return Some(Layer::Pen);
    }
    if chars_equal(p, "Pentacom") {
        return Some(Layer::Pentacom);
    }
    if chars_equal(p, "Rectangle") {
        return Some(Layer::Rectangle);
    }
    if chars_equal(p, "Redo") {
        return Some(Layer::Redo);
    }
    if chars_equal(p, "Save") {
        return Some(Layer::Save);
    }
    if chars_equal(p, "Settings") {
        return Some(Layer::Settings);
    }
    if chars_equal(p, "Undo") {
        return Some(Layer::Undo);
    }
    if chars_equal(p, "Zero") {
        return Some(Layer::Zero);
    }
    if chars_equal(p, "Zoom") {
        return Some(Layer::Zoom);
    }
    None
}

/// The layer named by a `snake_case` identifier, as the `layer!` macro reads
/// it: `file` is `Layer::File`.
pub fn layer(name: &str) -> (r: Option<Layer>)
    ensures
        r == named_layer(name@),
{
    let p = pascal_case(name);
    layer_with_name(&p)
}

/// The layers of an icon, bottom first.
#[derive(Debug, Clone, PartialEq, Eq)]
pub struct Layers(pub Vec<Layer>);

impl Layers {
    /// The layers of `slice`, in order.
    pub fn from(slice: &[Layer]) -> (r: Self)
        ensures
            r.0@ == slice@,
    {
        let mut v: Vec<Layer> = Vec::new();
        let mut i: usize = 0;
        while i < slice.len()
            invariant
                i <= slice@.len(),
                v@ == slice@.take(i as int),
            decreases slice.len() - i,
        {
            v.push(slice[i]);
            assert(v@ =~= slice@.take(i + 1));
            i += 1;
        }
        assert(slice@.take(slice@.len() as int) =~= slice@);
        Layers(v)
    }

    /// The layers collected from `layers`, in order.
    pub fn from_layers(layers: Vec<Layer>) -> (r: Self)
        ensures
            r.0@ == layers@,
    {
        Layers(layers)
    }
}

/// The rest of a dotted path of layer names from position `i`, where `word`
/// holds the characters of the name being read and `done` the layers read
/// before it. Each name must name a layer; a final dot is allowed.
pub open spec fn path_from(s: Seq<char>, i: int, word: Seq<char>, done: Seq<Layer>) -> Option<Seq<Layer>>
    decreases s.len() - i,
{
    if i >= s.len() || i < 0 {
        if word.len() == 0 {
            Some(done)
        } else {
            match named_layer(word) {
                Some(l) => Some(done.push(l)),
                None => None,
            }
        }
    } else if s[i] == '.' {
        match named_layer(word) {
            Some(l) => path_from(s, i + 1, Seq::empty(), done.push(l)),
            None => None,
        }
    } else {
        path_from(s, i + 1, word.push(s[i]), done)
    }
}

/// The layers a dotted path of `snake_case` names stands for, as the
/// `layers!` macro reads it: `file.font.new` is `File`, `Font`, `New`.
pub open spec fn path_layers(s: Seq<char>) -> Option<Seq<Layer>> {
    path_from(s, 0, Seq::empty(), Seq::empty())
}

/// The `snake_case` name spelled by `word`, as a layer.
fn word_layer(word: &Vec<char>) -> (r: Option<Layer>)
    ensures
        r == named_layer(word@),
{
    let mut out: Vec<char> = Vec::new();
    let mut start = true;
    let mut i: usize = 0;
    while i < word.len()
        invariant
            i <= word@.len(),
            out@ + pascal_from(word@, i as int, start) == pascal_from(word@, 0, true),
        decreases word.len() - i,
    {
        let c = word[i];
        if c == '_' {
            start = true;
        } else {
            let d = if start { crate::text::to_ascii_upper(c) } else { crate::text::to_ascii_lower(c) };
            proof {
                assert(out@.push(d) + pascal_from(word@, i + 1, false) =~= out@ + (seq![d] + pascal_from(word@, i + 1, false)));
            }
            out.push(d);
            start = false;
        }
        i += 1;
    }
    assert(out@ + pascal_from(word@, word@.len() as int, start) =~= out@);
    layer_with_name(&out)
}

/// The layers named by a dotted path of `snake_case` names, as the
/// `layers!` macro reads it, or `None` where a name names no layer.
pub fn layers(path: &str) -> (r: Option<Layers>)
    ensures
        match r {
            Some(ls) => path_layers(path@) == Some(ls.0@),
            None => path_layers(path@) is None,
        },
{
    let n = path.unicode_len();
    let mut word: Vec<char> = Vec::new();
    let mut done: Vec<Layer> = Vec::new();
    let mut i: usize = 0;
    while i < n
        invariant
            n == path@.len(),
            i <= n,
            path_layers(path@) == path_from(path@, i as int, word@, done@),
        decreases n - i,
    {
        let c = path.get_char(i);
        if c == '.' {
            match word_layer(&word) {
                Some(l) => {
                    done.push(l);
                    word = Vec::new();
                },
                None => return None,
            }
        } else {
            word.push(c);
        }
        i += 1;
    }
    if word.len() == 0 {
        return Some(Layers(done));
    }
    match word_layer(&word) {
        Some(l) => {
            done.push(l);
            Some(Layers(done))
        },
        None => None,
    }
}

/// An icon: layers drawn one over another.
#[derive(Debug)]
pub struct Icon {
    pub layers: Layers,
}

impl Icon {
    pub fn new(layers: Layers) -> (i: Self)
        ensures
            i.layers == layers,
    {
        Icon { layers }
    }
}

/// The icon drawn from `layers`.
pub fn icon(layers: Layers) -> (i: Icon)
    ensures
        i.layers == layers,
{
    Icon::new(layers)
}

/// A layer's image and its variants for the layers drawn below it.
#[derive(Debug)]
pub struct LayerNode {
    pub layer: Layer,
    /// Sixteen by sixteen pixels, four bytes each.
    pub pixbuf: [u8; 1024],
    pub children: Vec<LayerNode>,
}

/// The first of `nodes` for `layer`, if any.
pub open spec fn first_node(nodes: Seq<LayerNode>, layer: Layer) -> Option<LayerNode>
    decreases nodes.len(),
{
    if nodes.len() == 0 {
        None
    } else if nodes[0].layer == layer {
        Some(nodes[0])
    } else {
        first_node(nodes.drop_first(), layer)
    }
}

/// The node whose image draws `layer` over `context`: the variant of
/// `layer` under the last layer of `context` that has one, or else
/// `layer`'s base image among the children of `root`.
pub open spec fn source_node(root: LayerNode, layer: Layer, context: Seq<Layer>) -> LayerNode
    decreases context.len(),
{
    if context.len() == 0 {
        first_node(root.children@, layer).unwrap()
    } else {
        match first_node(root.children@, context.last()) {
            Some(base) => match first_node(base.children@, layer) {
                Some(variant) => variant,
                None => source_node(root, layer, context.drop_last()),
            },
            None => source_node(root, layer, context.drop_last()),
        }
    }
}

impl LayerNode {
    /// The first child for `layer`, if any.
    pub fn child(&self, layer: Layer) -> (r: Option<&LayerNode>)
        ensures
            match r {
                Some(n) => first_node(self.children@, layer) == Some(*n),
                None => first_node(self.children@, layer) is None,
            },
    {
        let mut i: usize = 0;
        assert(self.children@.skip(0) =~= self.children@);
        while i < self.children.len()
            invariant
                i <= self.children@.len(),
                first_node(self.children@, layer) == first_node(self.children@.skip(i as int), layer),
            decreases self.children.len() - i,
        {
            let ghost rest = self.children@.skip(i as int);
            assert(rest[0] == self.children@[i as int]);
            assert(rest.drop_first() =~= self.children@.skip(i + 1));
            if self.children[i].layer == layer {
                return Some(&self.children[i]);
            }
            i += 1;
        }
        assert(self.children@.skip(i as int) =~= Seq::<LayerNode>::empty());
        None
    }
}

impl Layer {
    /// The image that draws this layer over the layers of `context`, found
    /// in the layer tree `root`.
    pub fn pixbuf<'a>(self, root: &'a LayerNode, context: &[Layer]) -> (p: &'a [u8; 1024])
        requires
            first_node(root.children@, self) is Some,
        ensures
            *p == source_node(*root, self, context@).pixbuf,
    {
        let mut found: &LayerNode = root.child(self).unwrap();
        let mut i: usize = 0;
        assert(context@.take(0) =~= Seq::<Layer>::empty());
        while i < context.len()
            invariant
                first_node(root.children@, self) is Some,
                i <= context@.len(),
                *found == source_node(*root, self, context@.take(i as int)),
            decreases context.len() - i,
        {
            assert(context@.take(i + 1).drop_last() =~= context@.take(i as int));
            if let Some(base) = root.child(context[i]) {
                if let Some(variant) = base.child(self) {
                    found = variant;
                }
            }
            i += 1;
        }
        assert(context@.take(context@.len() as int) =~= context@);
        &found.pixbuf
    }
}

} // verus!
