use gl3w_native::extract::{procs_from_captures, sort_procs};
use gl3w_native::{ExtractError, Gl3wExec, Proc};

fn raw_names(procs: &[Proc]) -> Vec<String> {
    procs.iter().map(|p| p.raw_name().to_string()).collect()
}

fn captures(names: &[&str]) -> Vec<Option<String>> {
    names.iter().map(|n| Some(n.to_string())).collect()
}

#[test]
fn one_declaration_gives_one_symbol() {
    let exec = Gl3wExec::default();
    let procs = exec.gen_procs("GLAPI void APIENTRY glClear (GLbitfield mask);").unwrap();
    assert_eq!(procs.len(), 1);
    assert_eq!(procs[0].raw_name(), "glClear");
    assert_eq!(procs[0].loader_name(), "gl3wClear");
    assert_eq!(procs[0].pointer_type_name(), "PFNGLCLEARPROC");
}

#[test]
fn gl_clear_from_the_text_to_the_files() {
    let exec = Gl3wExec::default();
    let procs = exec.gen_procs("GLAPI void APIENTRY glClear (GLbitfield mask);").unwrap();
    let fixed = gl3w_native::Boilerplate {
        preamble: String::new(),
        header: String::new(),
        footer: String::new(),
        source: String::new(),
    };
    let files = exec.gen(&fixed, &procs);
    assert_eq!(files.len(), 2);
    assert_eq!(files[0].path, "src/gl3w.h");
    let lines: Vec<&str> = files[0].text.lines().collect();
    assert_eq!(lines.len(), 4);
    assert!(lines[0].starts_with("extern PFNGLCLEARPROC "));
    assert!(lines[0].ends_with(" gl3wClear;"));
    assert_eq!(lines[0].split_whitespace().collect::<Vec<&str>>(), vec!["extern", "PFNGLCLEARPROC", "gl3wClear;"]);
    assert_eq!(lines[1], "");
    assert_eq!(lines[2].split_whitespace().collect::<Vec<&str>>(), vec!["#define", "glClear", "gl3wClear"]);
    assert_eq!(lines[3], "");
    assert_eq!(files[1].path, "src/gl3w.c");
    let lines: Vec<&str> = files[1].text.lines().collect();
    assert_eq!(lines.len(), 6);
    assert_eq!(lines[0].split_whitespace().collect::<Vec<&str>>(), vec!["PFNGLCLEARPROC", "gl3wClear;"]);
    assert_eq!(lines[1], "");
    assert_eq!(lines[2], "static void load_procs(void)");
    assert_eq!(lines[3], "{");
    assert_eq!(lines[4], "    gl3wClear = (PFNGLCLEARPROC) get_proc(\"glClear\");");
    assert_eq!(lines[5], "}");
}

#[test]
fn a_text_without_declarations_gives_nothing() {
    let exec = Gl3wExec::default();
    assert_eq!(exec.gen_procs(""), Ok(vec![]));
    assert_eq!(exec.gen_procs("#ifndef __glcorearb_h_\n#define __glcorearb_h_ 1\n"), Ok(vec![]));
    assert_eq!(exec.gen_procs("typedef void (APIENTRYP PFNGLCLEARPROC) (GLbitfield mask);"), Ok(vec![]));
    assert_eq!(exec.gen_procs("GLAPI void glClear (GLbitfield mask);"), Ok(vec![]));
}

#[test]
fn declarations_are_sorted_by_name() {
    let exec = Gl3wExec::default();
    let text = "GLAPI void APIENTRY glEnable (GLenum cap);\nGLAPI void APIENTRY glDisable (GLenum cap);\n";
    let procs = exec.gen_procs(text).unwrap();
    assert_eq!(raw_names(&procs), vec!["glDisable", "glEnable"]);
}

#[test]
fn the_return_type_may_be_anything() {
    let exec = Gl3wExec::default();
    let text = "GLAPI const GLubyte *APIENTRY glGetString (GLenum name);\n\
                GLAPI GLboolean APIENTRY glIsEnabled (GLenum cap);\n\
                GLAPI void *APIENTRY glMapBuffer (GLenum target, GLenum access);\n";
    let procs = exec.gen_procs(text).unwrap();
    assert_eq!(raw_names(&procs), vec!["glGetString", "glIsEnabled", "glMapBuffer"]);
}

#[test]
fn repeated_declarations_are_kept() {
    let exec = Gl3wExec::default();
    let text = "GLAPI void APIENTRY glFlush (void);\n\
                GLAPI void APIENTRY glClear (GLbitfield mask);\n\
                GLAPI void APIENTRY glFlush (void);\n";
    let procs = exec.gen_procs(text).unwrap();
    assert_eq!(raw_names(&procs), vec!["glClear", "glFlush", "glFlush"]);
}

#[test]
fn the_shortest_span_between_the_markers_is_taken() {
    let exec = Gl3wExec::default();
    let text = "GLAPI void APIENTRY glFinish (void); GLAPI void APIENTRY glFlush (void);";
    let procs = exec.gen_procs(text).unwrap();
    assert_eq!(raw_names(&procs), vec!["glFinish", "glFlush"]);
}

#[test]
fn the_markers_stand_on_one_line() {
    let exec = Gl3wExec::default();
    assert_eq!(exec.gen_procs("GLAPI void\nAPIENTRY glFlush (void);"), Ok(vec![]));
    let procs = exec.gen_procs("GLAPI void APIENTRY\n\tglFlush (void);").unwrap();
    assert_eq!(raw_names(&procs), vec!["glFlush"]);
}

#[test]
fn word_characters_are_not_only_ascii() {
    let exec = Gl3wExec::default();
    let procs = exec.gen_procs("GLAPI void APIENTRY gl\u{c9}toile_2 (void);").unwrap();
    assert_eq!(procs.len(), 1);
    assert_eq!(procs[0].raw_name(), "gl\u{c9}toile_2");
    assert_eq!(procs[0].loader_name(), "gl3w\u{c9}toile_2");
    assert_eq!(procs[0].pointer_type_name(), "PFNGL\u{c9}TOILE_2PROC");
}

#[test]
fn an_identifier_ends_where_the_word_ends() {
    let exec = Gl3wExec::default();
    let procs = exec.gen_procs("GLAPI void APIENTRY glClear(GLbitfield mask);").unwrap();
    assert_eq!(raw_names(&procs), vec!["glClear"]);
    let procs = exec.gen_procs("GLAPI void APIENTRY glDraw-Arrays (void);").unwrap();
    assert_eq!(raw_names(&procs), vec!["glDraw"]);
    assert_eq!(exec.gen_procs("GLAPI void APIENTRYglClear (void);"), Ok(vec![]));
}

#[test]
fn a_short_identifier_fails_the_extraction() {
    let exec = Gl3wExec::default();
    assert_eq!(
        exec.gen_procs("GLAPI void APIENTRY x (void);"),
        Err(ExtractError::ShortIdentifier(0))
    );
    let text = "GLAPI void APIENTRY glFlush (void);\n\
                GLAPI void APIENTRY glClear (GLbitfield mask);\n\
                GLAPI void APIENTRY g (void);\n\
                GLAPI void APIENTRY h (void);\n";
    assert_eq!(exec.gen_procs(text), Err(ExtractError::ShortIdentifier(2)));
}

#[test]
fn an_identifier_of_two_characters_is_enough() {
    let exec = Gl3wExec::default();
    let procs = exec.gen_procs("GLAPI void APIENTRY gl (void);").unwrap();
    assert_eq!(procs.len(), 1);
    assert_eq!(procs[0].loader_name(), "gl3w");
}

#[test]
fn captures_become_sorted_entry_points() {
    let found = captures(&["glViewport", "glClear", "glEnable", "glDisable", "glClear"]);
    let procs = procs_from_captures(&found).unwrap();
    assert_eq!(
        raw_names(&procs),
        vec!["glClear", "glClear", "glDisable", "glEnable", "glViewport"]
    );
    assert_eq!(procs[2].loader_name(), "gl3wDisable");
    assert_eq!(procs[2].pointer_type_name(), "PFNGLDISABLEPROC");
}

#[test]
fn no_captures_give_no_entry_points() {
    assert_eq!(procs_from_captures(&vec![]), Ok(vec![]));
}

#[test]
fn the_first_unusable_capture_is_reported() {
    let found = vec![
        Some("glClear".to_string()),
        None,
        Some("g".to_string()),
    ];
    assert_eq!(procs_from_captures(&found), Err(ExtractError::ShortIdentifier(1)));
    let found = vec![Some("glClear".to_string()), Some("".to_string())];
    assert_eq!(procs_from_captures(&found), Err(ExtractError::ShortIdentifier(1)));
    let found = vec![Some("\u{e9}".to_string())];
    assert_eq!(procs_from_captures(&found), Err(ExtractError::ShortIdentifier(0)));
}

#[test]
fn sorting_agrees_with_the_order_of_strings() {
    let names = [
        "glViewport", "glClear", "glEnable", "glDisable", "glClearColor", "glBindBuffer",
        "glActiveTexture", "glClear", "glZ", "gla", "gl_x", "gl1",
    ];
    let procs: Vec<Proc> = names.iter().map(|n| Proc::new(n)).collect();
    let sorted = sort_procs(procs);
    let mut expected: Vec<String> = names.iter().map(|n| n.to_string()).collect();
    expected.sort();
    assert_eq!(raw_names(&sorted), expected);
    let mut by_derive: Vec<Proc> = names.iter().map(|n| Proc::new(n)).collect();
    by_derive.sort();
    assert_eq!(sorted, by_derive);
}

#[test]
fn sorting_keeps_a_sorted_list_and_an_empty_one() {
    assert_eq!(sort_procs(vec![]), vec![]);
    let sorted = sort_procs(vec![Proc::new("glA"), Proc::new("glB"), Proc::new("glC")]);
    assert_eq!(raw_names(&sorted), vec!["glA", "glB", "glC"]);
    let sorted = sort_procs(vec![Proc::new("glC"), Proc::new("glB"), Proc::new("glA")]);
    assert_eq!(raw_names(&sorted), vec!["glA", "glB", "glC"]);
}
