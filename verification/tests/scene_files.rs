use amtf_engine::scene_files::{diffuse_texture_path, local_path, model_name};

#[test]
fn the_first_two_dots_of_a_path_become_one() {
    assert_eq!(local_path("../textures/wall.png"), "./textures/wall.png");
    assert_eq!(local_path("../../wall.png"), "./../wall.png");
    assert_eq!(local_path("assets/../wall.png"), "assets/./wall.png");
    assert_eq!(local_path(".."), ".");
    assert_eq!(local_path("..."), "..");
    assert_eq!(local_path("a.."), "a.");
}

#[test]
fn a_path_without_two_dots_in_a_row_stays() {
    for path in ["", ".", "./textures/wall.png", "wall.png", "a.b.c", "/abs/wall.jpg"] {
        assert_eq!(local_path(path), path);
    }
}

#[test]
fn local_paths_are_what_replacing_once_gives() {
    for path in ["../a/../b", "x..y..z", "....", ".a.", "\u{e9}..\u{e9}", "..\u{1F600}..", ""] {
        assert_eq!(local_path(path), path.replacen("..", ".", 1));
    }
}

#[test]
fn the_last_material_with_a_diffuse_texture_decides() {
    let some = |path: &str| Some(path.to_owned());
    assert_eq!(diffuse_texture_path(&vec![]), "");
    assert_eq!(diffuse_texture_path(&vec![None, None]), "");
    assert_eq!(diffuse_texture_path(&vec![some("../a.png")]), "./a.png");
    assert_eq!(diffuse_texture_path(&vec![some("../a.png"), some("../b.png")]), "./b.png");
    assert_eq!(diffuse_texture_path(&vec![some("../a.png"), None, None]), "./a.png");
    assert_eq!(diffuse_texture_path(&vec![None, some("a.png"), None, some("b/c.png")]), "b/c.png");
    assert_eq!(diffuse_texture_path(&vec![some("../a.png"), some("")]), "");
}

#[test]
fn a_model_is_named_after_its_file_without_the_ending() {
    assert_eq!(model_name("plane.obj"), "plane");
    assert_eq!(model_name("plane"), "plane");
    assert_eq!(model_name(""), "");
    assert_eq!(model_name(".obj"), "");
    assert_eq!(model_name("a.obj.obj"), "a");
    assert_eq!(model_name("a.objects.obj"), "aects");
    assert_eq!(model_name(".o.objbj"), ".obj");
    assert_eq!(model_name("a.ob"), "a.ob");
    assert_eq!(model_name("a.OBJ"), "a.OBJ");
}

#[test]
fn model_names_are_what_replacing_everywhere_gives() {
    for name in ["x.obj.y.obj", "..obj.", ".ob.obj", "\u{e9}.obj\u{e9}", "obj", ".obj.obj.obj"] {
        assert_eq!(model_name(name), name.replace(".obj", ""));
    }
}
