use emoji_commit_type::{BumpLevel, CommitType};

#[test]
fn it_gives_the_first_type() {
    assert_eq!(CommitType::first_variant(), CommitType::Breaking);
}

#[test]
fn it_gives_the_last_type() {
    assert_eq!(CommitType::last_variant(), CommitType::Meta);
}

#[test]
fn it_gives_the_next_type() {
    assert_eq!(CommitType::Breaking.next_variant(), Some(CommitType::Feature));
    assert_eq!(CommitType::Feature.next_variant(), Some(CommitType::Bugfix));
    assert_eq!(CommitType::Bugfix.next_variant(), Some(CommitType::Other));
    assert_eq!(CommitType::Other.next_variant(), Some(CommitType::Meta));
    assert_eq!(CommitType::Meta.next_variant(), None);
}

#[test]
fn it_gives_the_previous_type() {
    assert_eq!(CommitType::Breaking.prev_variant(), None);
    assert_eq!(CommitType::Feature.prev_variant(), Some(CommitType::Breaking));
    assert_eq!(CommitType::Bugfix.prev_variant(), Some(CommitType::Feature));
    assert_eq!(CommitType::Other.prev_variant(), Some(CommitType::Bugfix));
    assert_eq!(CommitType::Meta.prev_variant(), Some(CommitType::Other));
}

#[test]
fn it_gives_an_variant_iterator() {
    let mut iter = CommitType::iter_variants();

    assert_eq!(iter.next(), Some(CommitType::Breaking));
    assert_eq!(iter.next(), Some(CommitType::Feature));
    assert_eq!(iter.next(), Some(CommitType::Bugfix));
    assert_eq!(iter.next(), Some(CommitType::Other));
    assert_eq!(iter.next(), Some(CommitType::Meta));
    assert_eq!(iter.next(), None);
}

#[test]
fn it_gives_an_emoji() {
    assert_eq!(CommitType::Breaking.emoji(), "💥");
    assert_eq!(CommitType::Feature.emoji(), "🎉");
    assert_eq!(CommitType::Bugfix.emoji(), "🐛");
    assert_eq!(CommitType::Other.emoji(), "🔥");
    assert_eq!(CommitType::Meta.emoji(), "🌹");
}

#[test]
fn it_gives_a_bump_level() {
    assert_eq!(CommitType::Breaking.bump_level(), BumpLevel::Major);
    assert_eq!(CommitType::Feature.bump_level(), BumpLevel::Minor);
    assert_eq!(CommitType::Bugfix.bump_level(), BumpLevel::Patch);
    assert_eq!(CommitType::Other.bump_level(), BumpLevel::Patch);
    assert_eq!(CommitType::Meta.bump_level(), BumpLevel::NoBump);
}

#[test]
fn it_gives_a_bump_level_name() {
    assert_eq!(CommitType::Breaking.bump_level().name(), "Major");
    assert_eq!(CommitType::Feature.bump_level().name(), "Minor");
    assert_eq!(CommitType::Bugfix.bump_level().name(), "Patch");
    assert_eq!(CommitType::Meta.bump_level().name(), "None");
}

#[test]
fn it_gives_a_description() {
    assert_eq!(CommitType::Breaking.description(), "Breaking change");
    assert_eq!(CommitType::Feature.description(), "New functionality");
    assert_eq!(CommitType::Bugfix.description(), "Bugfix");
    assert_eq!(CommitType::Other.description(), "Cleanup / Performance");
    assert_eq!(CommitType::Meta.description(), "Meta");
}
