use extypst::cache::{Lookup, PathCache};
use extypst::environment::Environment;
use extypst::error::FileError;
use extypst::fonts::{is_font_extension, FontIndex, FontLookup};
use extypst::identity::PathHash;
use extypst::registry::SourceRegistry;
use extypst::report::{format_diagnostics, pass_result, PassOutcome};

fn first_font() -> &'static [u8] {
    typst_assets::fonts().next().expect("bundled fonts")
}

#[test]
fn font_extensions_in_any_case() {
    for ext in ["ttf", "otf", "ttc", "otc", "TTF", "OTF", "TTC", "OTC", "Ttf", "oTc"] {
        assert!(is_font_extension(ext.as_bytes()), "{ext}");
    }
    for ext in ["", "tt", "woff", "txt", "ttff", "pdf", "ttx", "utf"] {
        assert!(!is_font_extension(ext.as_bytes()), "{ext}");
    }
}

#[test]
fn path_hash_depends_on_identity() {
    let a = PathHash::from_file_identity(1, 2);
    let b = PathHash::from_file_identity(1, 2);
    let c = PathHash::from_file_identity(2, 1);
    assert_eq!(a, b);
    assert_ne!(a, c);
    assert_ne!(a.0, 1);
    assert_ne!(a.0, 2);
}

#[test]
fn aliased_paths_share_one_read() {
    let mut cache = PathCache::new();
    let h = PathHash::from_file_identity(7, 42);
    let pa = "fonts/a.ttf".to_string();
    let pb = "fonts/link.ttf".to_string();
    assert!(matches!(cache.lookup_bytes(&pa), Lookup::NeedIdentity));
    cache.record_identity(pa.clone(), Ok(h));
    cache.record_identity(pb.clone(), Ok(h));
    match cache.lookup_bytes(&pa) {
        Lookup::NeedLoad(g) => assert_eq!(g, h),
        _ => panic!("expected a read to be asked for"),
    }
    cache.record_bytes(h, Ok(vec![1, 2, 3]));
    for p in [&pa, &pb] {
        match cache.lookup_bytes(p) {
            Lookup::Ready(Ok(b)) => assert_eq!(b, vec![1, 2, 3]),
            _ => panic!("expected the recorded bytes"),
        }
    }
    cache.record_bytes(h, Ok(vec![9]));
    match cache.lookup_bytes(&pb) {
        Lookup::Ready(Ok(b)) => assert_eq!(b, vec![1, 2, 3]),
        _ => panic!("expected the first bytes to stay"),
    }
}

#[test]
fn failures_are_cached() {
    let mut cache = PathCache::new();
    let p = "missing.typ".to_string();
    cache.record_identity(p.clone(), Err(FileError::NotFound));
    assert!(matches!(cache.lookup_bytes(&p), Lookup::Ready(Err(FileError::NotFound))));
    assert!(matches!(cache.lookup_source(&p), Lookup::Ready(Err(FileError::NotFound))));
    cache.record_identity(p.clone(), Ok(PathHash::from_file_identity(1, 1)));
    assert!(matches!(cache.identity(&p), Some(Err(FileError::NotFound))));

    let q = "dir".to_string();
    let h = PathHash::from_file_identity(3, 3);
    cache.record_identity(q.clone(), Ok(h));
    cache.record_bytes(h, Err(FileError::IsDirectory));
    assert!(matches!(cache.lookup_bytes(&q), Lookup::Ready(Err(FileError::IsDirectory))));
}

#[test]
fn source_resolved_once_for_all_callers() {
    let mut cache = PathCache::new();
    let h = PathHash::from_file_identity(5, 9);
    let paths: Vec<String> = (0..4).map(|i| format!("./x/../main{i}.typ")).collect();
    for p in &paths {
        cache.record_identity(p.clone(), Ok(h));
    }
    assert!(matches!(cache.lookup_source(&paths[0]), Lookup::NeedLoad(_)));
    cache.record_source(h, Ok(3));
    cache.record_source(h, Ok(8));
    for p in &paths {
        assert!(matches!(cache.lookup_source(p), Lookup::Ready(Ok(3))));
    }
    assert!(matches!(cache.lookup_bytes(&paths[1]), Lookup::NeedLoad(_)));
}

#[test]
fn reset_forgets_everything() {
    let mut cache = PathCache::new();
    let p = "a.typ".to_string();
    let h = PathHash::from_file_identity(1, 4);
    cache.record_identity(p.clone(), Ok(h));
    cache.record_bytes(h, Ok(vec![0]));
    cache.reset();
    assert!(matches!(cache.lookup_bytes(&p), Lookup::NeedIdentity));
    assert!(cache.identity(&p).is_none());
}

#[test]
fn register_is_append_only() {
    let mut reg = SourceRegistry::new();
    let a = reg.register("a.typ".to_string(), "= A".to_string());
    let b = reg.register("b.typ".to_string(), "= B".to_string());
    assert_eq!(a, 0);
    assert_eq!(b, 1);
    let first = reg.get(a).ok().unwrap();
    assert_eq!(first.path, "a.typ");
    assert_eq!(first.text, "= A");
    assert_eq!(reg.get(b).ok().unwrap().text, "= B");
    assert!(matches!(reg.get(2), Err(FileError::NotFound)));
    assert_eq!(reg.len(), 2);
}

#[test]
fn non_font_data_adds_nothing() {
    let mut idx = FontIndex::new();
    idx.search_file(&"notes.ttf".to_string(), b"not a font at all");
    assert_eq!(idx.len(), 0);
    assert!(matches!(idx.font(0), FontLookup::Missing));
}

#[test]
fn font_index_out_of_range_is_none() {
    let mut idx = FontIndex::new();
    idx.search_file(&"a.ttf".to_string(), first_font());
    assert_eq!(idx.len(), 1);
    assert!(matches!(idx.font(1), FontLookup::Missing));
    assert!(matches!(idx.font(usize::MAX), FontLookup::Missing));
    let mut env = Environment::new(idx);
    assert!(matches!(env.font(5), FontLookup::Missing));
    assert!(env.load_font(5, Ok(first_font().to_vec())).is_none());
}

#[test]
fn fonts_load_lazily_and_once() {
    let mut idx = FontIndex::new();
    let path = "fonts/a.ttf".to_string();
    idx.search_file(&path, first_font());
    assert_eq!(idx.infos().len(), 1);
    match idx.font(0) {
        FontLookup::Unloaded { path: p, face } => {
            assert_eq!(p, path);
            assert_eq!(face, 0);
        }
        _ => panic!("expected an unloaded slot"),
    }
    let font = idx.load(0, Ok(first_font().to_vec())).expect("parses");
    match idx.font(0) {
        FontLookup::Loaded(Some(f)) => assert!(f == font),
        _ => panic!("expected the loaded font"),
    }
    let again = idx.load(0, Err(FileError::NotFound));
    assert!(again == Some(font));
}

#[test]
fn failed_font_load_is_cached() {
    let mut idx = FontIndex::new();
    idx.search_file(&"a.ttf".to_string(), first_font());
    assert!(idx.load(0, Err(FileError::AccessDenied)).is_none());
    assert!(idx.load(0, Ok(first_font().to_vec())).is_none());
    assert!(matches!(idx.font(0), FontLookup::Loaded(None)));
}

#[test]
fn catalogue_order_is_deterministic() {
    let files: Vec<(String, &'static [u8])> = typst_assets::fonts()
        .take(4)
        .enumerate()
        .map(|(i, d)| (format!("f{i}.ttf"), d))
        .collect();
    let build = || {
        let mut idx = FontIndex::new();
        for (p, d) in &files {
            idx.search_file(p, d);
        }
        idx
    };
    let a = build();
    let b = build();
    assert_eq!(a.len(), 4);
    assert_eq!(a.len(), b.len());
    for i in 0..a.len() {
        match (a.font(i), b.font(i)) {
            (
                FontLookup::Unloaded { path: p, face: f },
                FontLookup::Unloaded { path: q, face: g },
            ) => {
                assert_eq!(p, q);
                assert_eq!(p, format!("f{i}.ttf"));
                assert_eq!(f, g);
            }
            _ => panic!("expected unloaded slots"),
        }
    }
}

#[test]
fn diagnostics_report_all_messages() {
    let msgs = vec!["unknown font".to_string(), "\nexpected expression".to_string()];
    assert_eq!(
        format_diagnostics(&msgs),
        "compile error:\nunknown font\nexpected expression"
    );
    assert_eq!(format_diagnostics(&vec![]), "compile error:\n");
}

#[test]
fn pass_result_translates_outcomes() {
    let ok = pass_result(PassOutcome::Exported(b"%PDF-1.7".to_vec()));
    assert_eq!(ok, Ok(b"%PDF-1.7".to_vec()));
    let export = pass_result(PassOutcome::ExportFailed("no pages".to_string()));
    assert_eq!(export, Err("no pages".to_string()));
    let diag = pass_result(PassOutcome::Diagnostics(vec!["bad".to_string()]));
    assert_eq!(diag, Err("compile error:\nbad".to_string()));
}

#[test]
fn each_pass_sees_its_own_markup() {
    let mut env = Environment::new(FontIndex::new());
    let h = PathHash::from_file_identity(2, 2);
    env.cache.record_identity("x".to_string(), Ok(h));
    let first = env.begin_pass("= Hello".to_string());
    assert!(env.cache.identity(&"x".to_string()).is_none());
    let second = env.begin_pass("= World".to_string());
    assert_ne!(first, second);
    assert_eq!(env.main, second);
    let main = env.source(env.main).ok().unwrap();
    assert_eq!(main.text, "= World");
    assert_eq!(main.path, "MARKUP.typ");
    assert_eq!(env.source(first).ok().unwrap().text, "= Hello");
    assert!(matches!(env.source(7), Err(FileError::NotFound)));
}

#[test]
fn empty_markup_is_registered() {
    let mut env = Environment::new(FontIndex::new());
    let id = env.begin_pass(String::new());
    assert_eq!(env.source(id).ok().unwrap().text, "");
}

#[test]
fn source_text_registered_once() {
    let mut env = Environment::new(FontIndex::new());
    let main = env.begin_pass("= Main".to_string());
    let h = PathHash::from_file_identity(4, 4);
    let pa = "chapter.typ".to_string();
    let pb = "./chapter.typ".to_string();
    env.cache.record_identity(pa.clone(), Ok(h));
    env.cache.record_identity(pb.clone(), Ok(h));
    let first = env.record_source_text(h, pa.clone(), Ok("= Chapter".to_string()));
    assert_eq!(first, Ok(main + 1));
    let again = env.record_source_text(h, pb.clone(), Ok("= Other".to_string()));
    assert_eq!(again, Ok(main + 1));
    assert_eq!(env.sources.len(), 2);
    assert!(matches!(env.cache.lookup_source(&pb), Lookup::Ready(Ok(n)) if n == main + 1));
    assert_eq!(env.source(main + 1).ok().unwrap().text, "= Chapter");
    assert_eq!(env.cache.recorded_source(h), Some(Ok(main + 1)));
}

#[test]
fn unreadable_source_is_cached_as_failure() {
    let mut env = Environment::new(FontIndex::new());
    let h = PathHash::from_file_identity(6, 1);
    let r = env.record_source_text(h, "bad.typ".to_string(), Err(FileError::AccessDenied));
    assert_eq!(r, Err(FileError::AccessDenied));
    let again = env.record_source_text(h, "bad.typ".to_string(), Ok("text".to_string()));
    assert_eq!(again, Err(FileError::AccessDenied));
    assert_eq!(env.sources.len(), 0);
}
