use advanced_demo::models::book::Book;
use advanced_demo::models::user::User;
use advanced_demo::services::auth::Auth;
use advanced_demo::services::library::Library;

#[test]
fn new_user_is_not_librarian() {
    let user = User::new(1, "dzikrisyairozi");
    assert_eq!(user.id, 1);
    assert_eq!(user.username, "dzikrisyairozi");
    assert!(!Auth::check_librarian(&user));
    let mut librarian = user.clone();
    librarian.is_librarian = true;
    assert!(Auth::check_librarian(&librarian));
}

#[test]
fn new_book_is_available_and_dated() {
    let book = Book::new(1, "The Rust Programming Language", "Steve Klabnik", 1_700_000_000);
    assert_eq!(book.id, 1);
    assert_eq!(book.title, "The Rust Programming Language");
    assert_eq!(book.author, "Steve Klabnik");
    assert!(book.is_available);
    assert_eq!(book.published_date, 1_700_000_000);
}

#[test]
fn library_files_and_finds_books() {
    let mut library = Library::new();
    assert!(library.get_book(1).is_none());
    library.add_book(Book::new(1, "First", "A", 0));
    library.add_book(Book::new(2, "Second", "B", 10));
    library.register_user(User::new(1, "reader"));
    assert_eq!(library.get_book(1).map(|b| b.title.clone()), Some("First".to_string()));
    assert_eq!(library.get_book(2).map(|b| b.published_date), Some(10));
    assert!(library.get_book(3).is_none());
}

#[test]
fn adding_a_book_under_a_taken_id_replaces_it() {
    let mut library = Library::new();
    library.add_book(Book::new(7, "Old", "A", 0));
    library.add_book(Book::new(7, "New", "B", 0));
    assert_eq!(library.get_book(7).map(|b| b.title.clone()), Some("New".to_string()));
}
