use std::str::FromStr;
use tmx::color::Color;
use tmx::document::parse_map;
use tmx::document::parse_tileset;
use tmx::document::read_map;
use tmx::document::read_tileset;
use tmx::element::Element;
use tmx::element::Kind;
use tmx::error::Error;
use tmx::event::tokenize;
use tmx::event::Attribute;
use tmx::event::Event;
use tmx::model::corners::Corners;
use tmx::model::shape::Shape;
use tmx::model::tile_map::TileMap;
use tmx::model::tileset::Tileset;
use tmx::point::Point;
use tmx::reader::read_attributes;
use tmx::reader::read_children;
use tmx::reader::read_document;
use tmx::reader::read_element_at;
use tmx::reader::skip_subtree;
use tmx::vocabulary::Axis;
use tmx::vocabulary::DrawOrder;
use tmx::vocabulary::Index;
use tmx::vocabulary::Orientation;
use tmx::vocabulary::PropertyType;
use tmx::vocabulary::RenderOrder;

fn start(name: &str, attributes: &[(&str, &str)]) -> Event {
    Event::StartElement {
        name: name.to_string(),
        attributes: attributes
            .iter()
            .map(|(name, value)| Attribute { name: name.to_string(), value: value.to_string() })
            .collect(),
    }
}

fn end(name: &str) -> Event {
    Event::EndElement { name: name.to_string() }
}

#[test]
fn hexagonal_map_has_its_stagger_parameters() {
    let map = parse_map(
        r#"<map orientation="hexagonal" hexsidelength="32" staggeraxis="y" staggerindex="even"/>"#,
    )
    .unwrap();
    assert_eq!(Orientation::Hexagonal, map.orientation());
    assert_eq!(Some(32), map.hex_side_length());
    assert_eq!(Some(Axis::Y), map.stagger_axis());
    assert_eq!(Some(Index::Even), map.stagger_index());
}

#[test]
fn bare_map_has_no_stagger_parameters() {
    let map = parse_map("<map/>").unwrap();
    assert_eq!(None, map.hex_side_length());
    assert_eq!(None, map.stagger_axis());
    assert_eq!(None, map.stagger_index());
    assert_eq!(None, map.background_color());
    assert_eq!(Orientation::Orthogonal, map.orientation());
    assert_eq!(RenderOrder::RightDown, map.render_order());
    assert_eq!("", map.version());
    assert_eq!((0, 0, 0, 0, 0), (map.width(), map.height(), map.tile_width(), map.tile_height(), map.next_object_id()));
    assert!(map.tilesets().is_empty());
    assert!(map.layers().is_empty());
    assert!(map.image_layers().is_empty());
    assert!(map.object_groups().is_empty());
    assert_eq!(0, map.properties().len());
}

#[test]
fn encoded_data_is_kept_verbatim() {
    let map = parse_map(
        r#"<map><layer><data encoding="base64" compression="gzip">X</data></layer></map>"#,
    )
    .unwrap();
    let data = map.layers()[0].data().unwrap();
    assert_eq!(Some("base64"), data.encoding());
    assert_eq!(Some("gzip"), data.compression());
    assert_eq!(Some("X"), data.raw_content());
    assert!(data.tiles().is_empty());
}

#[test]
fn cells_written_out_come_in_document_order() {
    let map = parse_map(
        r#"<map><layer><data>
            <tile gid="3"/>
            <tile gid="1"/>
            <tile gid="2"/>
        </data></layer></map>"#,
    )
    .unwrap();
    let data = map.layers()[0].data().unwrap();
    assert_eq!(None, data.encoding());
    assert_eq!(None, data.compression());
    assert_eq!(None, data.raw_content());
    let gids: Vec<u32> = data.tiles().iter().map(|tile| tile.gid()).collect();
    assert_eq!(vec![3, 1, 2], gids);
}

#[test]
fn character_data_section_counts_as_text() {
    let map = parse_map("<map><layer><data><![CDATA[1,2,3]]></data></layer></map>").unwrap();
    assert_eq!(Some("1,2,3"), map.layers()[0].data().unwrap().raw_content());
}

#[test]
fn later_text_takes_the_place_of_earlier_text() {
    let events = vec![
        start("map", &[]),
        start("layer", &[]),
        start("data", &[]),
        Event::Characters("first".to_string()),
        Event::Other,
        Event::CData("second".to_string()),
        end("data"),
        Event::Characters("ignored by a layer".to_string()),
        end("layer"),
        end("map"),
    ];
    let map = read_map(&events).unwrap();
    assert_eq!(Some("second"), map.layers()[0].data().unwrap().raw_content());
}

#[test]
fn misnamed_or_missing_root_is_malformed() {
    assert_eq!(Err(Error::BadXml), parse_map("<nomap/>"));
    assert_eq!(Err(Error::BadXml), parse_map(""));
    assert_eq!(Err(Error::BadXml), parse_map("not a document"));
    assert_eq!(Err(Error::BadXml), parse_map("<tileset/>"));
    assert_eq!(Err(Error::BadXml), parse_tileset("<map/>"));
    assert_eq!(Err(Error::BadXml), parse_tileset(""));
    assert_eq!(Err(Error::BadXml), read_map(&vec![]));
    assert_eq!(Err(Error::BadXml), read_tileset(&vec![Event::Other, end("tileset")]));
}

#[test]
fn root_may_follow_a_declaration_and_comments() {
    let map = parse_map(
        "<?xml version=\"1.0\" encoding=\"UTF-8\"?>\n<!-- a map -->\n<map version=\"1.2\"/>",
    )
    .unwrap();
    assert_eq!("1.2", map.version());
}

#[test]
fn malformed_words_fail_under_their_own_kind() {
    assert_eq!(Err(Error::BadOrientation("bad".to_string())), parse_map(r#"<map orientation="bad"/>"#));
    assert_eq!(Err(Error::BadRenderOrder("bad".to_string())), parse_map(r#"<map renderorder="bad"/>"#));
    assert_eq!(Err(Error::BadAxis("bad".to_string())), parse_map(r#"<map staggeraxis="bad"/>"#));
    assert_eq!(Err(Error::BadIndex("bad".to_string())), parse_map(r#"<map staggerindex="bad"/>"#));
}

#[test]
fn malformed_values_fail_with_the_error_of_their_reader() {
    assert_eq!(Err(Error::InvalidNumber("abc".to_string())), parse_map(r#"<map width="abc"/>"#));
    assert_eq!(Err(Error::InvalidNumber("-1".to_string())), parse_map(r#"<map height="-1"/>"#));
    assert_eq!(Err(Error::InvalidColor("red".to_string())), parse_map(r#"<map backgroundcolor="red"/>"#));
    assert_eq!(
        Err(Error::InvalidNumber("half".to_string())),
        parse_map(r#"<map><layer opacity="half"/></map>"#)
    );
    assert_eq!(
        Err(Error::InvalidNumber("yes".to_string())),
        parse_map(r#"<map><layer visible="yes"/></map>"#)
    );
    assert_eq!(
        Err(Error::InvalidPoint("1".to_string())),
        parse_map(r#"<map><objectgroup><object><polygon points="0,0 1"/></object></objectgroup></map>"#)
    );
    assert_eq!(
        Err(Error::InvalidNumber("1,2".to_string())),
        parse_tileset(r#"<tileset><tile terrain="1,2"/></tileset>"#)
    );
}

#[test]
fn unknown_attribute_is_refused_by_name() {
    assert_eq!(Err(Error::UnknownAttribute("bad".to_string())), parse_map(r#"<map bad=""/>"#));
    assert_eq!(
        Err(Error::UnknownAttribute("colour".to_string())),
        parse_map(r#"<map width="1" colour="1" height="x"/>"#)
    );
    for (document, name) in [
        (r#"<map><layer depth="1"/></map>"#, "depth"),
        (r#"<map><imagelayer depth="1"/></map>"#, "depth"),
        (r#"<map><objectgroup depth="1"/></map>"#, "depth"),
        (r#"<map><objectgroup><object depth="1"/></objectgroup></map>"#, "depth"),
        (r#"<map><objectgroup><object><ellipse points="1,1"/></object></objectgroup></map>"#, "points"),
        (r#"<map><objectgroup><object><polygon point="1,1"/></object></objectgroup></map>"#, "point"),
        (r#"<map><properties kind="1"/></map>"#, "kind"),
        (r#"<map><properties><property kind="1"/></properties></map>"#, "kind"),
        (r#"<map><tileset><tileoffset z="1"/></tileset></map>"#, "z"),
        (r#"<map><tileset><image depth="1"/></tileset></map>"#, "depth"),
        (r#"<map><tileset><terraintypes count="1"/></tileset></map>"#, "count"),
        (r#"<map><tileset><terraintypes><terrain id="1"/></terraintypes></tileset></map>"#, "id"),
        (r#"<map><tileset><tile gid="1"/></tileset></map>"#, "gid"),
        (r#"<map><tileset><tile><animation loop="1"/></tile></tileset></map>"#, "loop"),
        (r#"<map><tileset><tile><animation><frame id="1"/></animation></tile></tileset></map>"#, "id"),
        (r#"<map><layer><data format="1"/></layer></map>"#, "format"),
        (r#"<map><layer><data><tile id="1"/></data></layer></map>"#, "id"),
    ] {
        assert_eq!(Err(Error::UnknownAttribute(name.to_string())), parse_map(document));
    }
    assert_eq!(
        Err(Error::UnknownAttribute("version".to_string())),
        parse_tileset(r#"<tileset version="1"/>"#)
    );
}

#[test]
fn first_error_of_the_walk_decides() {
    assert_eq!(
        Err(Error::InvalidNumber("x".to_string())),
        parse_map(r#"<map><layer width="x"/><layer bad="1"/></map>"#)
    );
    assert_eq!(
        Err(Error::UnknownAttribute("bad".to_string())),
        parse_map(r#"<map><layer bad="1"/><layer width="x"/></map>"#)
    );
}

#[test]
fn unknown_children_are_passed_over_with_all_they_hold() {
    let map = parse_map(
        r#"<map>
            <editorsettings><layer name="inner"/><chunksize width="x"/></editorsettings>
            <layer name="outer"><future bad="1"><data/></future></layer>
            <group><group><layer name="deep"/></group></group>
        </map>"#,
    )
    .unwrap();
    let names: Vec<&str> = map.layers().iter().map(|layer| layer.name()).collect();
    assert_eq!(vec!["outer"], names);
    assert!(map.layers()[0].data().is_none());
}

#[test]
fn attributes_left_out_take_their_defaults() {
    let map = parse_map(
        r#"<map><layer/><imagelayer/><objectgroup><object/></objectgroup>
            <properties><property name="p"/></properties></map>"#,
    )
    .unwrap();
    let layer = &map.layers()[0];
    assert_eq!("1", layer.opacity().as_str());
    assert!(layer.is_visible());
    assert_eq!((0, 0, 0, 0, 0, 0), (layer.x(), layer.y(), layer.width(), layer.height(), layer.offset_x(), layer.offset_y()));
    let image_layer = &map.image_layers()[0];
    assert_eq!(1.0, image_layer.opacity().as_str().parse::<f32>().unwrap());
    assert!(image_layer.is_visible());
    assert!(image_layer.image().is_none());
    let group = &map.object_groups()[0];
    assert_eq!(1.0, group.opacity().as_str().parse::<f32>().unwrap());
    assert!(group.is_visible());
    assert_eq!(DrawOrder::TopDown, group.draw_order());
    assert_eq!(None, group.color());
    let object = &group.objects()[0];
    assert!(object.is_visible());
    assert!(object.shape().is_none());
    assert_eq!(None, object.gid());
    assert_eq!(0.0, object.x().as_str().parse::<f64>().unwrap());
    assert_eq!(0.0, object.rotation().as_str().parse::<f64>().unwrap());
    let property = &map.properties().items()[0];
    assert_eq!(PropertyType::String, property.property_type());
    assert_eq!("", property.value());
    assert_eq!(RenderOrder::RightDown, map.render_order());
}

#[test]
fn both_spellings_of_visibility_are_read() {
    let map = parse_map(
        r#"<map><layer visible="0"/><layer visibility="0"/><layer visible="1"/>
            <objectgroup><object visible="0"/></objectgroup></map>"#,
    )
    .unwrap();
    let shown: Vec<bool> = map.layers().iter().map(|layer| layer.is_visible()).collect();
    assert_eq!(vec![false, false, true], shown);
    assert!(!map.object_groups()[0].objects()[0].is_visible());
}

#[test]
fn repeated_children_keep_document_order() {
    let map = parse_map(
        r#"<map>
            <layer name="l1"/>
            <objectgroup name="g1"/>
            <tileset name="t1"/>
            <layer name="l2"/>
            <imagelayer name="i1"/>
            <tileset name="t2"/>
            <objectgroup name="g2"><object id="7"/><object id="5"/><object id="6"/></objectgroup>
            <layer name="l3"/>
        </map>"#,
    )
    .unwrap();
    assert_eq!(vec!["l1", "l2", "l3"], map.layers().iter().map(|l| l.name()).collect::<Vec<_>>());
    assert_eq!(vec!["t1", "t2"], map.tilesets().iter().map(|t| t.name()).collect::<Vec<_>>());
    assert_eq!(vec!["i1"], map.image_layers().iter().map(|l| l.name()).collect::<Vec<_>>());
    assert_eq!(vec!["g1", "g2"], map.object_groups().iter().map(|g| g.name()).collect::<Vec<_>>());
    assert_eq!(
        vec![7, 5, 6],
        map.object_groups()[1].objects().iter().map(|o| o.id()).collect::<Vec<_>>()
    );
}

#[test]
fn properties_go_by_name_and_keep_their_first_place() {
    let map = parse_map(
        r#"<map><properties>
            <property name="a" value="1"/>
            <property name="b" value="2" type="int"/>
            <property name="a" value="3" type="bool"/>
            <property name="c" value="4"/>
        </properties></map>"#,
    )
    .unwrap();
    let properties = map.properties();
    assert_eq!(3, properties.len());
    let listed: Vec<(&str, &str)> = properties.items().iter().map(|p| (p.name(), p.value())).collect();
    assert_eq!(vec![("a", "3"), ("b", "2"), ("c", "4")], listed);
    assert_eq!(PropertyType::Bool, properties.get("a").unwrap().property_type());
    assert_eq!("2", properties.get("b").unwrap().value());
    assert!(properties.get("d").is_none());
}

#[test]
fn child_with_one_place_takes_the_place_of_an_earlier_one() {
    let tileset = parse_tileset(
        r#"<tileset>
            <image source="first.png"/>
            <image source="second.png"/>
            <properties><property name="a"/><property name="b"/></properties>
            <properties><property name="c"/></properties>
        </tileset>"#,
    )
    .unwrap();
    assert_eq!("second.png", tileset.image().unwrap().source());
    assert_eq!(1, tileset.properties().len());
    assert_eq!("c", tileset.properties().items()[0].name());
}

#[test]
fn tileset_holds_what_the_document_says_of_it() {
    let tileset = parse_tileset(
        r#"<tileset firstgid="5" source="outside.tsx" name="ground" tilewidth="32" tileheight="16"
                spacing="1" margin="2" tilecount="8" columns="4">
            <tileoffset x="-3" y="4"/>
            <image format="png" source="ground.png" trans="ff00ff" width="128" height="32">
                <data encoding="base64">QUJD</data>
            </image>
            <terraintypes>
                <terrain name="grass" tile="0"/>
                <terrain name="sand" tile="1"/>
            </terraintypes>
            <tile id="0" terrain="0,0,,1" probability="0.25">
                <image source="single.png"/>
                <objectgroup draworder="index"><object id="1" x="1.5"/></objectgroup>
                <animation>
                    <frame tileid="0" duration="100"/>
                    <frame tileid="1" duration="250"/>
                </animation>
                <properties><property name="solid" value="true" type="bool"/></properties>
            </tile>
            <tile id="1"/>
        </tileset>"#,
    )
    .unwrap();
    assert_eq!(5, tileset.first_gid());
    assert_eq!("outside.tsx", tileset.source());
    assert_eq!("ground", tileset.name());
    assert_eq!((32, 16, 1, 2, 8, 4), (tileset.tile_width(), tileset.tile_height(), tileset.spacing(), tileset.margin(), tileset.tile_count(), tileset.columns()));
    let offset = tileset.tile_offset().unwrap();
    assert_eq!((-3, 4), (offset.x(), offset.y()));
    let image = tileset.image().unwrap();
    assert_eq!("png", image.format());
    assert_eq!("ground.png", image.source());
    assert_eq!(Some(&Color { alpha: 255, red: 255, green: 0, blue: 255 }), image.trans());
    assert_eq!((128, 32), (image.width(), image.height()));
    let data = image.data().unwrap();
    assert_eq!(Some("base64"), data.encoding());
    assert_eq!(Some("QUJD"), data.raw_content());
    let terrains: Vec<(&str, &str)> = tileset.terrain_types().iter().map(|t| (t.name(), t.tile())).collect();
    assert_eq!(vec![("grass", "0"), ("sand", "1")], terrains);
    assert_eq!(2, tileset.tiles().len());
    let tile = &tileset.tiles()[0];
    assert_eq!(0, tile.id());
    assert_eq!(
        Some(&Corners { top_left: Some(0), top_right: Some(0), bottom_left: None, bottom_right: Some(1) }),
        tile.terrain()
    );
    assert_eq!(0.25, tile.probability().unwrap().as_str().parse::<f32>().unwrap());
    assert_eq!("single.png", tile.image().unwrap().source());
    let group = tile.object_group().unwrap();
    assert_eq!(DrawOrder::Index, group.draw_order());
    assert_eq!(1.5, group.objects()[0].x().as_str().parse::<f64>().unwrap());
    let frames: Vec<(u32, u32)> = tile.animation().unwrap().frames().iter().map(|f| (f.tile_id(), f.duration())).collect();
    assert_eq!(vec![(0, 100), (1, 250)], frames);
    assert_eq!(PropertyType::Bool, tile.properties().get("solid").unwrap().property_type());
    let bare = &tileset.tiles()[1];
    assert_eq!(1, bare.id());
    assert!(bare.terrain().is_none());
    assert!(bare.probability().is_none());
    assert!(bare.image().is_none());
    assert!(bare.object_group().is_none());
    assert!(bare.animation().is_none());
}

#[test]
fn objects_have_their_shapes() {
    let map = parse_map(
        r##"<map><objectgroup name="things" color="#80ff0000" x="1" y="2" width="3" height="4">
            <object id="1" name="box" type="wall" x="10.5" y="-2" width="30" height="4e1" rotation="90" gid="12"/>
            <object id="2"><ellipse/></object>
            <object id="3"><polygon points="0,0 4,0 4,3"/></object>
            <object id="4"><polyline points="1,1 -2,5"/></object>
            <object id="5"><polygon points="0,0"/><ellipse/></object>
        </objectgroup></map>"##,
    )
    .unwrap();
    let group = &map.object_groups()[0];
    assert_eq!("things", group.name());
    assert_eq!(Some(&Color { alpha: 128, red: 255, green: 0, blue: 0 }), group.color());
    assert_eq!((1, 2, 3, 4), (group.x(), group.y(), group.width(), group.height()));
    let objects = group.objects();
    assert_eq!(5, objects.len());
    let plain = &objects[0];
    assert_eq!((1, "box", "wall"), (plain.id(), plain.name(), plain.object_type()));
    assert_eq!("10.5", plain.x().as_str());
    assert_eq!(-2.0, plain.y().as_str().parse::<f64>().unwrap());
    assert_eq!(30.0, plain.width().as_str().parse::<f64>().unwrap());
    assert_eq!(40.0, plain.height().as_str().parse::<f64>().unwrap());
    assert_eq!(90.0, plain.rotation().as_str().parse::<f64>().unwrap());
    assert_eq!(Some(12), plain.gid());
    assert!(plain.shape().is_none());
    assert_eq!(Some(&Shape::Ellipse), objects[1].shape());
    assert_eq!(
        Some(&Shape::Polygon(vec![Point { x: 0, y: 0 }, Point { x: 4, y: 0 }, Point { x: 4, y: 3 }])),
        objects[2].shape()
    );
    assert_eq!(
        Some(&Shape::Polyline(vec![Point { x: 1, y: 1 }, Point { x: -2, y: 5 }])),
        objects[3].shape()
    );
    assert_eq!(Some(&Shape::Ellipse), objects[4].shape());
}

#[test]
fn image_layer_holds_its_image() {
    let map = parse_map(
        r#"<map backgroundcolor="102030"><imagelayer name="sky" x="1" y="2" width="3" height="4" opacity="0.5">
            <image source="sky.png" width="640" height="480"/>
        </imagelayer></map>"#,
    )
    .unwrap();
    assert_eq!(Some(&Color { alpha: 255, red: 16, green: 32, blue: 48 }), map.background_color());
    let layer = &map.image_layers()[0];
    assert_eq!(("sky", 1, 2, 3, 4), (layer.name(), layer.x(), layer.y(), layer.width(), layer.height()));
    assert_eq!(0.5, layer.opacity().as_str().parse::<f32>().unwrap());
    let image = layer.image().unwrap();
    assert_eq!(("sky.png", 640, 480), (image.source(), image.width(), image.height()));
    assert_eq!(None, image.trans());
}

#[test]
fn reading_the_same_text_twice_gives_equal_maps() {
    let text = r#"<map version="1.0" width="2"><tileset name="t"><tile id="1"/></tileset>
        <layer name="l"><data><tile gid="1"/></data></layer>
        <objectgroup><object><polygon points="1,2 3,4"/></object></objectgroup></map>"#;
    assert_eq!(parse_map(text), parse_map(text));
    assert_eq!(parse_map("<map bad=\"1\"/>"), parse_map("<map bad=\"1\"/>"));
    assert_eq!(TileMap::from_str(text), parse_map(text));
    assert_eq!(Tileset::from_str("<tileset name=\"t\"/>"), parse_tileset("<tileset name=\"t\"/>"));
    assert_ne!(parse_map(text), parse_map("<map/>"));
}

#[test]
fn document_that_ends_early_is_complete_as_far_as_it_goes() {
    let map = parse_map(r#"<map width="3"><layer name="a"/><layer name="b">"#).unwrap();
    assert_eq!(3, map.width());
    assert_eq!(vec!["a", "b"], map.layers().iter().map(|l| l.name()).collect::<Vec<_>>());
    let events = vec![start("map", &[("height", "4")]), start("layer", &[("name", "only")])];
    let map = read_map(&events).unwrap();
    assert_eq!(4, map.height());
    assert_eq!("only", map.layers()[0].name());
}

#[test]
fn tokenizer_delivers_the_events_of_a_document() {
    let events = tokenize(r#"<map width="2"><layer name="a">text</layer><!-- c --><other/></map>"#);
    let structure: Vec<Event> = events.into_iter().filter(|event| *event != Event::Other).collect();
    assert_eq!(
        vec![
            start("map", &[("width", "2")]),
            start("layer", &[("name", "a")]),
            Event::Characters("text".to_string()),
            end("layer"),
            start("other", &[]),
            end("other"),
            end("map"),
        ],
        structure
    );
}

#[test]
fn tokenizer_unescapes_and_stops_at_the_first_syntax_error() {
    let events = tokenize(r#"<map name="a&amp;b"><layer></map>"#);
    assert!(events.contains(&start("map", &[("name", "a&b")])));
    assert!(events.contains(&start("layer", &[])));
    assert!(!events.contains(&end("map")));
    assert!(tokenize("").iter().all(|event| *event == Event::Other));
    let first = tokenize("<a/><b/>");
    let second = tokenize("<a/><b/>");
    assert_eq!(first, second);
}

#[test]
fn closing_event_of_another_name_does_not_end_an_element() {
    let events = vec![
        start("map", &[]),
        end("layer"),
        start("layer", &[("name", "after")]),
        end("layer"),
        end("map"),
        start("layer", &[("name", "outside")]),
    ];
    let map = read_map(&events).unwrap();
    assert_eq!(vec!["after"], map.layers().iter().map(|l| l.name()).collect::<Vec<_>>());
}

#[test]
fn subtree_is_passed_over_up_to_its_own_end() {
    let events = vec![
        start("a", &[]),
        start("b", &[]),
        end("b"),
        Event::Characters("t".to_string()),
        end("a"),
        start("c", &[]),
    ];
    assert_eq!(5, skip_subtree(&events, 1));
    assert_eq!(3, skip_subtree(&events, 2));
    assert_eq!(6, skip_subtree(&events, 6));
    assert_eq!(6, skip_subtree(&events, 5));
    assert_eq!(9, skip_subtree(&events, 9));
}

#[test]
fn element_is_read_from_its_attributes_and_content() {
    let events = vec![
        start("layer", &[("name", "a")]),
        start("data", &[]),
        end("data"),
        end("layer"),
        start("layer", &[]),
    ];
    let attributes = vec![Attribute { name: "name".to_string(), value: "a".to_string() }];
    let (layer, next) = read_element_at(Kind::Layer, &attributes, &events, 1);
    assert_eq!(4, next);
    match layer.unwrap() {
        Element::Layer(layer) => {
            assert_eq!("a", layer.name());
            assert!(layer.data().is_some());
        },
        other => panic!("not a layer: {:?}", other),
    }
    let (rest, next) = read_children(Element::new(Kind::Layer), &events, 7);
    assert_eq!(7, next);
    assert_eq!(Ok(Element::new(Kind::Layer)), rest);
    let bad = vec![Attribute { name: "nome".to_string(), value: "a".to_string() }];
    assert_eq!((Err(Error::UnknownAttribute("nome".to_string())), 1), read_element_at(Kind::Layer, &bad, &events, 1));
    assert_eq!(Err(Error::UnknownAttribute("nome".to_string())), read_attributes(Element::new(Kind::Layer), &bad));
    assert_eq!(Kind::Layer, read_document(Kind::Layer, &events).unwrap().kind());
    assert_eq!(Err(Error::BadXml), read_document(Kind::Data, &events));
}

#[test]
fn kinds_know_their_tags_and_children() {
    assert_eq!("map", Kind::TileMap.tag());
    assert_eq!("tile", Kind::Tile.tag());
    assert_eq!("tile", Kind::DataTile.tag());
    assert_eq!("terraintypes", Kind::TerrainTypes.tag());
    assert_eq!(Some(Kind::Tile), Kind::Tileset.child("tile"));
    assert_eq!(Some(Kind::DataTile), Kind::Data.child("tile"));
    assert_eq!(Some(Kind::Polygon), Kind::Object.child("polygon"));
    assert_eq!(None, Kind::TileMap.child("tile"));
    assert_eq!(None, Kind::TileMap.child("Layer"));
    assert_eq!(None, Kind::Frame.child("frame"));
    for kind in [Kind::TileMap, Kind::Ellipse, Kind::Polygon, Kind::Polyline, Kind::Properties, Kind::TerrainTypes] {
        assert_eq!(kind, Element::new(kind).kind());
    }
}

#[test]
fn child_of_a_kind_that_is_not_read_changes_nothing() {
    let layer = Element::new(Kind::Layer).attach(Element::new(Kind::Tileset));
    assert_eq!(Element::new(Kind::Layer), layer);
    let frame = Element::new(Kind::Frame).attach_text("text");
    assert_eq!(Element::new(Kind::Frame), frame);
}

#[test]
fn attribute_rule_of_a_kind_can_be_tried_alone() {
    let layer = Element::new(Kind::Layer)
        .read_attribute("name", "ground")
        .unwrap()
        .read_attribute("offsetx", "-4")
        .unwrap()
        .read_attribute("opacity", "0.75")
        .unwrap();
    match &layer {
        Element::Layer(layer) => {
            assert_eq!("ground", layer.name());
            assert_eq!(-4, layer.offset_x());
            assert_eq!("0.75", layer.opacity().as_str());
        },
        other => panic!("not a layer: {:?}", other),
    }
    assert_eq!(
        Err(Error::UnknownAttribute("gid".to_string())),
        layer.read_attribute("gid", "1")
    );
    assert_eq!(
        Err(Error::InvalidNumber("1.5".to_string())),
        Element::new(Kind::Frame).read_attribute("duration", "1.5")
    );
    assert_eq!(
        Err(Error::UnknownAttribute("points".to_string())),
        Element::new(Kind::Ellipse).read_attribute("points", "0,0")
    );
    assert_eq!(
        Ok(Element::Shape(Shape::Polyline(vec![Point { x: 0, y: 0 }]))),
        Element::new(Kind::Polyline).read_attribute("points", "0,0")
    );
}

#[test]
fn children_attach_by_the_rule_of_their_parent() {
    let first = Element::new(Kind::Layer).read_attribute("name", "first").unwrap();
    let second = Element::new(Kind::Layer).read_attribute("name", "second").unwrap();
    let map = Element::new(Kind::TileMap).attach(first).attach(second);
    match &map {
        Element::TileMap(map) => {
            assert_eq!(vec!["first", "second"], map.layers().iter().map(|l| l.name()).collect::<Vec<_>>());
        },
        other => panic!("not a map: {:?}", other),
    }
    let data = Element::new(Kind::Data).attach_text("abc").attach_text("def");
    match &data {
        Element::Data(data) => assert_eq!(Some("def"), data.raw_content()),
        other => panic!("not data: {:?}", other),
    }
}
