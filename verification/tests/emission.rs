use gl3w_native::{
    gen_gl3w_c, gen_gl3w_h, gen_gl3w_single, Artifact, Boilerplate, Gl3wExec, Gl3wPath, Proc,
};

const GUARD_OPEN: &str = "\n#if defined(GL3W_IMPLEMENTATION) && !defined(GL3W_IMPLEMENTATION_DONE)\n#define GL3W_IMPLEMENTATION_DONE\n\n";
const GUARD_CLOSE: &str = "\n#endif /* GL3W_IMPLEMENTATION */\n\n";

fn boilerplate() -> Boilerplate {
    Boilerplate {
        preamble: "/* preamble */\n".to_string(),
        header: "/* declarations */\n".to_string(),
        footer: "/* footer */\n".to_string(),
        source: "/* implementation */\n".to_string(),
    }
}

fn header_of(procs: &[Proc]) -> String {
    let mut out = String::new();
    gen_gl3w_h(&mut out, &boilerplate(), procs);
    out
}

fn source_of(procs: &[Proc]) -> String {
    let mut out = String::new();
    gen_gl3w_c(&mut out, &boilerplate(), procs);
    out
}

fn single_of(procs: &[Proc]) -> String {
    let mut out = String::new();
    gen_gl3w_single(&mut out, &boilerplate(), procs);
    out
}

#[test]
fn header_of_one_symbol() {
    let text = header_of(&[Proc::new("glClear")]);
    let expected = String::new()
        + "/* preamble */\n"
        + "/* declarations */\n"
        + "extern PFNGLCLEARPROC                                       gl3wClear;\n"
        + "\n"
        + "#define glClear                                       gl3wClear\n"
        + "\n"
        + "/* footer */\n";
    assert_eq!(text, expected);
}

#[test]
fn source_of_one_symbol() {
    let text = source_of(&[Proc::new("glClear")]);
    let expected = String::new()
        + "/* preamble */\n"
        + "/* implementation */\n"
        + "PFNGLCLEARPROC                                       gl3wClear;\n"
        + "\n"
        + "static void load_procs(void)\n"
        + "{\n"
        + "    gl3wClear = (PFNGLCLEARPROC) get_proc(\"glClear\");\n"
        + "}\n";
    assert_eq!(text, expected);
}

#[test]
fn columns_are_filled_to_their_width() {
    let text = header_of(&[Proc::new("glClear")]);
    let declaration = format!("extern {}{} gl3wClear;\n", "PFNGLCLEARPROC", " ".repeat(52 - 14));
    let definition = format!("#define {}{} gl3wClear\n", "glClear", " ".repeat(45 - 7));
    assert!(text.contains(&declaration));
    assert!(text.contains(&definition));
    assert_eq!(declaration, format!("extern {:<52} {};\n", "PFNGLCLEARPROC", "gl3wClear"));
    assert_eq!(definition, format!("#define {:<45} {}\n", "glClear", "gl3wClear"));
}

#[test]
fn a_name_wider_than_its_column_is_not_cut() {
    let id = "glAnEntryPointWithAVeryLongNameThatGoesFarBeyondTheColumn";
    assert!(id.len() > 52);
    let p = Proc::new(id);
    let text = header_of(&[p.clone()]);
    let declaration = format!("extern {} {};\n", p.pointer_type_name(), p.loader_name());
    let definition = format!("#define {} {}\n", id, p.loader_name());
    assert!(text.contains(&declaration));
    assert!(text.contains(&definition));
    let text = source_of(&[p.clone()]);
    assert!(text.contains(&format!("\n{} {};\n", p.pointer_type_name(), p.loader_name())));
}

#[test]
fn a_name_as_wide_as_its_column_gets_no_filling() {
    let id = "gl".to_string() + &"a".repeat(43);
    assert_eq!(id.len(), 45);
    let p = Proc::new(&id);
    assert_eq!(p.pointer_type_name().len(), 52);
    let text = header_of(&[p.clone()]);
    assert!(text.contains(&format!("extern {} {};\n", p.pointer_type_name(), p.loader_name())));
    assert!(text.contains(&format!("#define {} {}\n", id, p.loader_name())));
}

#[test]
fn width_is_counted_in_characters() {
    let p = Proc::new("gl\u{e9}t\u{e9}");
    let text = header_of(&[p.clone()]);
    let definition = format!("#define gl\u{e9}t\u{e9}{} gl3w\u{e9}t\u{e9}\n", " ".repeat(40));
    assert!(text.contains(&definition));
    assert_eq!(definition, format!("#define {:<45} {}\n", "gl\u{e9}t\u{e9}", "gl3w\u{e9}t\u{e9}"));
}

#[test]
fn no_symbols_leave_the_fixed_text() {
    assert_eq!(header_of(&[]), "/* preamble */\n/* declarations */\n\n\n/* footer */\n");
    assert_eq!(
        source_of(&[]),
        "/* preamble */\n/* implementation */\n\nstatic void load_procs(void)\n{\n}\n"
    );
    assert_eq!(
        single_of(&[]),
        header_of(&[]) + GUARD_OPEN + &source_of(&[]) + GUARD_CLOSE
    );
}

#[test]
fn lines_follow_the_order_of_the_list() {
    let procs = [Proc::new("glDisable"), Proc::new("glEnable")];
    let header = header_of(&procs);
    let d = header.find("extern PFNGLDISABLEPROC").unwrap();
    let e = header.find("extern PFNGLENABLEPROC").unwrap();
    assert!(d < e);
    let d2 = header.find("#define glDisable ").unwrap();
    let e2 = header.find("#define glEnable ").unwrap();
    assert!(e < d2 && d2 < e2);
    let source = source_of(&procs);
    let d = source.find("\nPFNGLDISABLEPROC").unwrap();
    let e = source.find("\nPFNGLENABLEPROC").unwrap();
    assert!(d < e);
    let d2 = source.find("    gl3wDisable = (PFNGLDISABLEPROC) get_proc(\"glDisable\");\n").unwrap();
    let e2 = source.find("    gl3wEnable = (PFNGLENABLEPROC) get_proc(\"glEnable\");\n").unwrap();
    assert!(e < d2 && d2 < e2);
}

#[test]
fn extracted_symbols_are_rendered_in_alphabetical_order() {
    let exec = Gl3wExec::default();
    let procs = exec
        .gen_procs("GLAPI void APIENTRY glEnable (GLenum cap);\nGLAPI void APIENTRY glDisable (GLenum cap);\n")
        .unwrap();
    let header = header_of(&procs);
    assert!(header.find("gl3wDisable;").unwrap() < header.find("gl3wEnable;").unwrap());
    assert!(header.find("#define glDisable").unwrap() < header.find("#define glEnable").unwrap());
    let source = source_of(&procs);
    assert!(source.find("gl3wDisable;").unwrap() < source.find("gl3wEnable;").unwrap());
    assert!(source.find("get_proc(\"glDisable\")").unwrap() < source.find("get_proc(\"glEnable\")").unwrap());
}

#[test]
fn the_combined_file_holds_both_texts() {
    let procs = [Proc::new("glClear"), Proc::new("glFlush")];
    let header = header_of(&procs);
    let source = source_of(&procs);
    let single = single_of(&procs);
    assert_eq!(single, header.clone() + GUARD_OPEN + &source + GUARD_CLOSE);
    let opened = single.find(GUARD_OPEN).unwrap();
    let closed = single.rfind(GUARD_CLOSE).unwrap();
    assert_eq!(&single[..opened], header);
    assert_eq!(&single[opened + GUARD_OPEN.len()..closed], source);
    assert_eq!(closed + GUARD_CLOSE.len(), single.len());
}

#[test]
fn text_is_appended_to_what_is_there() {
    let procs = [Proc::new("glClear")];
    let mut out = "// generated\n".to_string();
    gen_gl3w_h(&mut out, &boilerplate(), &procs);
    assert_eq!(out, "// generated\n".to_string() + &header_of(&procs));
    gen_gl3w_c(&mut out, &boilerplate(), &procs);
    assert_eq!(out, "// generated\n".to_string() + &header_of(&procs) + &source_of(&procs));
}

#[test]
fn a_run_with_two_targets_renders_two_files() {
    let exec = Gl3wExec::default();
    let procs = [Proc::new("glClear")];
    let files = exec.gen(&boilerplate(), &procs);
    assert_eq!(
        files,
        vec![
            Artifact { path: "src/gl3w.h".to_string(), text: header_of(&procs) },
            Artifact { path: "src/gl3w.c".to_string(), text: source_of(&procs) },
        ]
    );
}

#[test]
fn a_run_with_one_target_renders_the_combined_file() {
    let exec = Gl3wExec {
        url_glcorearb: "http://localhost/glcorearb.h".to_string(),
        path_glcorearb: "cache/glcorearb.h".to_string(),
        path_gl3w: Gl3wPath::Single("out/gl3w.h".to_string()),
        no_cache: true,
    };
    let procs = [Proc::new("glClear"), Proc::new("glFlush")];
    let files = exec.gen(&boilerplate(), &procs);
    assert_eq!(
        files,
        vec![Artifact { path: "out/gl3w.h".to_string(), text: single_of(&procs) }]
    );
}

#[test]
fn rendering_twice_gives_the_same_text() {
    let exec = Gl3wExec::default();
    let text = "GLAPI void APIENTRY glFlush (void);\nGLAPI void APIENTRY glClear (GLbitfield mask);\n";
    let first = exec.gen(&boilerplate(), &exec.gen_procs(text).unwrap());
    let second = exec.gen(&boilerplate(), &exec.gen_procs(text).unwrap());
    assert_eq!(first, second);
}
