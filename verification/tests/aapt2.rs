use crossbundle::aapt2::{Aapt2Compile, Visibility};

fn strings(items: &[&str]) -> Vec<String> {
    items.iter().map(|s| s.to_string()).collect()
}

#[test]
fn builder_test_one() {
    let aapt2 = Aapt2Compile::new(
        &[
            "C:\\Users\\den99\\Desktop\\Work\\DodoRare\\creator\\examples\\3d\\res\\android\\mipmap-hdpi\\ic_launcher.png".to_owned(),
            "C:\\Users\\den99\\Desktop\\Work\\DodoRare\\creator\\examples\\3d\\res\\android\\mipmap-hdpi\\ic_launcher1.png".to_owned(),
            "C:\\Users\\den99\\Desktop\\Work\\DodoRare\\creator\\examples\\3d\\res\\android\\mipmap-hdpi\\ic_launcher2.png".to_owned(),
            "C:\\Users\\den99\\Desktop\\Work\\DodoRare\\creator\\examples\\3d\\res\\android\\mipmap-hdpi\\ic_launcher3.png".to_owned(),
        ],
        "C:\\Users\\den99\\Desktop\\Work\\DodoRare\\creator\\examples\\3d\\res\\android\\mipmap-hdpi\\",
    )
    .run();
    assert_eq!(aapt2.program, "aapt2");
    assert_eq!(aapt2.args.len(), 7);
    assert_eq!(aapt2.args[0], "compile");
    assert_eq!(
        aapt2.args[1],
        "C:\\Users\\den99\\Desktop\\Work\\DodoRare\\creator\\examples\\3d\\res\\android\\mipmap-hdpi\\ic_launcher.png"
    );
    assert_eq!(
        aapt2.args[4],
        "C:\\Users\\den99\\Desktop\\Work\\DodoRare\\creator\\examples\\3d\\res\\android\\mipmap-hdpi\\ic_launcher3.png"
    );
    assert_eq!(aapt2.args[5], "-o");
    assert_eq!(
        aapt2.args[6],
        "C:\\Users\\den99\\Desktop\\Work\\DodoRare\\creator\\examples\\3d\\res\\android\\mipmap-hdpi\\"
    );
    assert_eq!(aapt2.current_dir, None);
    assert!(aapt2.envs.is_empty());
}

#[test]
fn aapt2_options_come_in_fixed_order() {
    let mut compile = Aapt2Compile::new(&strings(&["res/values/strings.xml"]), "compiled");
    compile
        .h(true)
        .v(true)
        .trace_folder("trace")
        .preserve_visibility_of_styleables(true)
        .legacy()
        .no_crunch()
        .pseudo_localize()
        .output_text_symbols("symbols.txt".to_owned())
        .zip("res.zip")
        .visibility(Visibility::Private)
        .dir("res");
    let cmd = compile.run();
    assert_eq!(
        cmd.args,
        strings(&[
            "compile",
            "res/values/strings.xml",
            "-o",
            "compiled",
            "--dir",
            "res",
            "--visibility",
            "private",
            "--zip",
            "res.zip",
            "--output-text-symbols",
            "symbols.txt",
            "--pseudo-localize",
            "--no-crunch",
            "--legacy",
            "--preserve-visibility-of-styleables",
            "--trace-folder",
            "trace",
            "-v",
            "-h",
        ])
    );
}

#[test]
fn aapt2_switches_can_be_taken_back() {
    let mut compile = Aapt2Compile::new(&[], "out");
    compile.v(true).h(true).preserve_visibility_of_styleables(true);
    compile.v(false).h(false).preserve_visibility_of_styleables(false);
    assert_eq!(compile.run().args, strings(&["compile", "-o", "out"]));
}

#[test]
fn aapt2_visibility_levels() {
    assert_eq!(Visibility::Public.to_string(), "public");
    assert_eq!(Visibility::Private.to_string(), "private");
    assert_eq!(Visibility::Default.to_string(), "default");
    for (level, text) in [
        (Visibility::Public, "public"),
        (Visibility::Private, "private"),
        (Visibility::Default, "default"),
    ] {
        let mut compile = Aapt2Compile::new(&[], "out");
        compile.visibility(level);
        assert_eq!(
            compile.run().args,
            strings(&["compile", "-o", "out", "--visibility", text])
        );
    }
}
