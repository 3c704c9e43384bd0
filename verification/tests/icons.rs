use pixfont::icons::{layer, layers, Layer, LayerNode, Layers};

#[test]
fn test_single_layer() {
    assert_eq!(layer("file"), Some(Layer::File));
}

#[test]
fn test_multiple_layers() {
    assert_eq!(
        layers("file.font.new"),
        Some(Layers::from(&[Layer::File, Layer::Font, Layer::New]))
    )
}

#[test]
fn layer_names_are_snake_case() {
    assert_eq!(layer("drawer"), Some(Layer::Drawer));
    assert_eq!(layer("FILE"), Some(Layer::File));
    assert_eq!(layer("glyphset"), Some(Layer::Glyphset));
    assert_eq!(layer("glyph_set"), None);
    assert_eq!(layer("nothing"), None);
    assert_eq!(layer(""), None);
}

#[test]
fn layer_paths_allow_a_final_dot() {
    assert_eq!(layers("zoom.in."), Some(Layers::from(&[Layer::Zoom, Layer::In])));
    assert_eq!(layers(""), Some(Layers::from(&[])));
    assert_eq!(layers("."), None);
    assert_eq!(layers("file..font"), None);
    assert_eq!(layers("file.nothing"), None);
}

#[test]
fn pixbuf_prefers_the_variant_of_the_nearest_layer_below() {
    let node = |layer, byte, children| LayerNode { layer, pixbuf: [byte; 1024], children };
    let root = node(
        Layer::Blank,
        0,
        vec![
            node(Layer::File, 1, vec![node(Layer::New, 2, vec![])]),
            node(Layer::Font, 3, vec![node(Layer::New, 4, vec![])]),
            node(Layer::New, 5, vec![]),
            node(Layer::Save, 6, vec![]),
        ],
    );
    assert_eq!(Layer::New.pixbuf(&root, &[])[0], 5);
    assert_eq!(Layer::New.pixbuf(&root, &[Layer::File])[0], 2);
    assert_eq!(Layer::New.pixbuf(&root, &[Layer::File, Layer::Font])[0], 4);
    assert_eq!(Layer::New.pixbuf(&root, &[Layer::Font, Layer::Save])[0], 4);
    assert_eq!(Layer::File.pixbuf(&root, &[Layer::Font])[0], 1);
    assert!(root.child(Layer::Zoom).is_none());
}

#[test]
fn icon_keeps_its_layers() {
    let layers = Layers::from(&[Layer::Save, Layer::New]);
    let icon = pixfont::icons::icon(layers.clone());
    assert_eq!(icon.layers, layers);
}
