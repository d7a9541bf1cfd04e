use zedlib::prompt_library::{PromptLibrary, PromptLibraryError, PromptMetadata, UserPrompt};

fn prompt(title: &str, content: &str) -> UserPrompt {
    UserPrompt::new(
        PromptMetadata::new(title.to_string(), "someone".to_string(), None),
        content.to_string(),
    )
}

#[test]
fn activate_and_join() {
    let mut library = PromptLibrary::new();
    let ids = library.load_prompts(vec![prompt("first", "one"), prompt("second", "two")]);
    assert_eq!(ids.len(), 2);
    assert_ne!(ids[0], ids[1]);
    assert_eq!(library.join_active_prompts(), "");
    library.activate_prompt(ids[1].clone()).unwrap();
    library.activate_prompt(ids[0].clone()).unwrap();
    assert_eq!(library.join_active_prompts(), "two\n\n---\n\none");
}

#[test]
fn activate_unknown_prompt() {
    let mut library = PromptLibrary::new();
    assert_eq!(
        library.activate_prompt("missing".to_string()),
        Err(PromptLibraryError::PromptNotFound)
    );
    assert_eq!(library.join_active_prompts(), "");
}

#[test]
fn activate_prompts_stops_at_first_missing() {
    let mut library = PromptLibrary::new();
    let ids = library.load_prompts(vec![prompt("a", "A"), prompt("b", "B")]);
    let r = library.activate_prompts(vec![ids[0].clone(), "nope".to_string(), ids[1].clone()]);
    assert_eq!(r, Err(PromptLibraryError::PromptNotFound));
    assert_eq!(library.join_active_prompts(), "A");
    library.activate_prompts(vec![ids[1].clone(), ids[1].clone()]).unwrap();
    assert_eq!(library.join_active_prompts(), "A\n\n---\n\nB\n\n---\n\nB");
}

#[test]
fn deactivate_by_title() {
    let mut library = PromptLibrary::new();
    let ids = library.load_prompts(vec![prompt("a", "A"), prompt("b", "B")]);
    library.activate_prompts(ids.clone()).unwrap();
    library.deactivate_prompt("a".to_string()).unwrap();
    assert_eq!(library.join_active_prompts(), "B");
    assert_eq!(
        library.deactivate_prompt("a".to_string()),
        Err(PromptLibraryError::PromptNotFound)
    );
}

#[test]
fn front_matter() {
    let (front, body) =
        UserPrompt::split_front_matter("---\ntitle: Hi\nauthor: me\n---\n\nBody text\n").unwrap();
    assert_eq!(front, "title: Hi\nauthor: me");
    assert_eq!(body, "Body text");
    assert_eq!(
        UserPrompt::split_front_matter("no front matter"),
        Err(PromptLibraryError::MissingFrontMatter)
    );
    assert_eq!(
        UserPrompt::split_front_matter("--- only one"),
        Err(PromptLibraryError::MissingFrontMatter)
    );
}

#[test]
fn loaded_prompt_ids_are_uuid_texts() {
    let mut library = PromptLibrary::new();
    let ids = library.load_prompts(vec![prompt("a", "A"), prompt("b", "B"), prompt("c", "C")]);
    assert_eq!(ids.len(), 3);
    for id in &ids {
        let chars: Vec<char> = id.chars().collect();
        assert_eq!(chars.len(), 36);
        for (i, c) in chars.iter().enumerate() {
            if i == 8 || i == 13 || i == 18 || i == 23 {
                assert_eq!(*c, '-');
            } else {
                assert!(c.is_ascii_digit() || ('a'..='f').contains(c));
            }
        }
        assert_eq!(chars[14], '4');
        assert!(matches!(chars[19], '8' | '9' | 'a' | 'b'));
    }
    assert!(library.activate_prompts(ids).is_ok());
}
