use sqlx::migrate::MigrateDatabase;
use sqlx::sqlite::SqlitePool;
use sqlx::{Row, Sqlite};
use todo_cli::session::{Event, Request, Session};
use todo_cli::store::{
    create, InsertOutcome, NewTodo, CREATE_TODO_TABLE, INSERT_TODO, SELECT_TODOS,
};

fn args(words: &[&str]) -> Vec<String> {
    words.iter().map(|word| word.to_string()).collect()
}

fn wait<F: std::future::Future>(work: F) -> F::Output {
    tokio::runtime::Builder::new_current_thread().enable_all().build().unwrap().block_on(work)
}

fn url(name: &str) -> String {
    format!("sqlite:///tmp/todo_cli_{}.db", name)
}

async fn insert(pool: &SqlitePool, row: NewTodo) -> Result<InsertOutcome, String> {
    let created =
        chrono::DateTime::from_timestamp(row.created_at.seconds, row.created_at.nanos).unwrap();
    let updated =
        chrono::DateTime::from_timestamp(row.updated_at.seconds, row.updated_at.nanos).unwrap();
    sqlx::query(INSERT_TODO)
        .bind(row.content)
        .bind(row.is_done)
        .bind(created)
        .bind(updated)
        .execute(pool)
        .await
        .map(|done| InsertOutcome {
            changes: done.rows_affected(),
            last_insert_rowid: done.last_insert_rowid(),
        })
        .map_err(|error| error.to_string())
}

/// Runs one session against the database at `url`, as the program does, and
/// gives back what it printed and what it asked for.
async fn run(url: &str, words: &[&str]) -> (Vec<String>, Vec<Request>) {
    let (mut session, mut directive) = Session::start(args(words));
    let mut pool: Option<SqlitePool> = None;
    let mut printed = Vec::new();
    let mut asked = Vec::new();
    loop {
        printed.append(&mut directive.prints);
        let event = match &directive.request {
            Request::CheckDatabase => Event::DatabaseChecked(
                Sqlite::database_exists(url).await.map_err(|error| error.to_string()),
            ),
            Request::CreateDatabase => Event::DatabaseCreated(
                Sqlite::create_database(url).await.map_err(|error| error.to_string()),
            ),
            Request::Connect => match SqlitePool::connect(url).await {
                Ok(opened) => {
                    pool = Some(opened);
                    Event::Connected(Ok(()))
                }
                Err(error) => Event::Connected(Err(error.to_string())),
            },
            Request::CreateTable => Event::TableCreated(
                sqlx::query(CREATE_TODO_TABLE)
                    .execute(pool.as_ref().unwrap())
                    .await
                    .map(|_| ())
                    .map_err(|error| error.to_string()),
            ),
            Request::Insert(content) => {
                Event::Inserted(insert(pool.as_ref().unwrap(), create(content.clone())).await)
            }
            Request::SelectAll => Event::Listed(
                sqlx::query(SELECT_TODOS)
                    .fetch_all(pool.as_ref().unwrap())
                    .await
                    .map(|rows| rows.iter().map(|row| row.get::<String, &str>("content")).collect())
                    .map_err(|error| error.to_string()),
            ),
            Request::Exit => {
                asked.push(directive.request);
                if let Some(open) = pool {
                    open.close().await;
                }
                return (printed, asked);
            }
            Request::Abort(message) => panic!("{}", message),
        };
        asked.push(directive.request);
        directive = session.step(event).unwrap();
    }
}

async fn fresh(name: &str) -> String {
    let url = url(name);
    let _ = Sqlite::drop_database(&url).await;
    assert!(!Sqlite::database_exists(&url).await.unwrap());
    url
}

async fn tables(url: &str) -> Vec<String> {
    let pool = SqlitePool::connect(url).await.unwrap();
    let rows = sqlx::query("select name from sqlite_master where type = 'table' and name = 'todo'")
        .fetch_all(&pool)
        .await
        .unwrap();
    pool.close().await;
    rows.iter().map(|row| row.get::<String, &str>("name")).collect()
}

async fn rows(url: &str) -> Vec<(i64, String, bool)> {
    let pool = SqlitePool::connect(url).await.unwrap();
    let rows =
        sqlx::query("select id, content, isDone from todo order by rowid").fetch_all(&pool).await.unwrap();
    pool.close().await;
    rows.iter()
        .map(|row| {
            (
                row.get::<i64, &str>("id"),
                row.get::<String, &str>("content"),
                row.get::<bool, &str>("isDone"),
            )
        })
        .collect()
}

#[test]
fn bootstrap_creates_the_file_and_the_table_once() {
    wait(async {
        let url = fresh("bootstrap").await;
        let (printed, asked) = run(&url, &["todo"]).await;
        assert_eq!(
            printed,
            vec![
                String::from("Hello, world!"),
                String::from("Creating database sqlite://sqlite.db"),
                String::from("Create db success"),
                String::from("this is todo cli in rust"),
            ]
        );
        assert_eq!(
            asked,
            vec![
                Request::CheckDatabase,
                Request::CreateDatabase,
                Request::Connect,
                Request::CreateTable,
                Request::Exit,
            ]
        );
        assert!(Sqlite::database_exists(&url).await.unwrap());
        assert_eq!(tables(&url).await, vec![String::from("todo")]);

        let (printed, asked) = run(&url, &["todo"]).await;
        assert_eq!(
            printed,
            vec![
                String::from("Hello, world!"),
                String::from("Database already exists"),
                String::from("this is todo cli in rust"),
            ]
        );
        assert_eq!(
            asked,
            vec![Request::CheckDatabase, Request::Connect, Request::CreateTable, Request::Exit]
        );
        assert_eq!(tables(&url).await, vec![String::from("todo")]);
        Sqlite::drop_database(&url).await.unwrap();
    });
}

#[test]
fn create_adds_one_row_each_time() {
    wait(async {
        let url = fresh("create").await;
        let mut reports = Vec::new();
        for _ in 0..4 {
            let (printed, _) = run(&url, &["todo", "create"]).await;
            assert_eq!(printed[printed.len() - 2], "Create");
            reports.push(printed[printed.len() - 1].clone());
        }
        let stored = rows(&url).await;
        assert_eq!(stored.len(), 4);
        for (i, (id, content, is_done)) in stored.iter().enumerate() {
            assert_eq!(content, "test todo");
            assert!(!*is_done);
            if i > 0 {
                assert!(*id > stored[i - 1].0);
            }
            assert_eq!(
                reports[i],
                format!("SqliteQueryResult {{ changes: 1, last_insert_rowid: {} }}", id)
            );
        }
        Sqlite::drop_database(&url).await.unwrap();
    });
}

#[test]
fn readall_lists_every_content() {
    wait(async {
        let url = fresh("readall").await;
        run(&url, &["todo"]).await;
        let pool = SqlitePool::connect(&url).await.unwrap();
        insert(&pool, create(String::from("a"))).await.unwrap();
        insert(&pool, create(String::from("b"))).await.unwrap();
        pool.close().await;

        let (printed, asked) = run(&url, &["todo", "readall"]).await;
        assert_eq!(asked[asked.len() - 2], Request::SelectAll);
        let mut listed: Vec<String> = printed[2..].to_vec();
        assert_eq!(listed.len(), 2);
        assert!(listed[0].starts_with("[0]: "));
        assert!(listed[1].starts_with("[1]: "));
        listed.sort_by_key(|line| line[5..].to_string());
        assert_eq!(listed[0][5..], *"\"a\"");
        assert_eq!(listed[1][5..], *"\"b\"");
        Sqlite::drop_database(&url).await.unwrap();
    });
}

#[test]
fn other_invocations_leave_the_rows_alone() {
    wait(async {
        let url = fresh("untouched").await;
        run(&url, &["todo", "create"]).await;
        let before = rows(&url).await;
        assert_eq!(before.len(), 1);
        let lists: [&[&str]; 7] = [
            &["todo"],
            &["todo", "read"],
            &["todo", "update"],
            &["todo", "delete"],
            &["todo", "remove"],
            &["todo", "create", "milk"],
            &["todo", "a", "b", "c"],
        ];
        for words in lists {
            let (_, asked) = run(&url, words).await;
            assert_eq!(
                asked,
                vec![Request::CheckDatabase, Request::Connect, Request::CreateTable, Request::Exit]
            );
            assert_eq!(rows(&url).await, before);
        }
        let (printed, _) = run(&url, &["todo", "remove"]).await;
        assert_eq!(printed[printed.len() - 1], "Error, command not found!");
        Sqlite::drop_database(&url).await.unwrap();
    });
}

#[test]
fn stored_instants_are_the_ones_bound() {
    wait(async {
        let url = fresh("instants").await;
        run(&url, &["todo"]).await;
        let pool = SqlitePool::connect(&url).await.unwrap();
        let row = create(String::from("timed"));
        let created = row.created_at;
        let updated = row.updated_at;
        insert(&pool, row).await.unwrap();
        let stored = sqlx::query("select createdAt, updatedAt from todo").fetch_one(&pool).await.unwrap();
        let stored_created = stored.get::<chrono::DateTime<chrono::Utc>, &str>("createdAt");
        let stored_updated = stored.get::<chrono::DateTime<chrono::Utc>, &str>("updatedAt");
        assert_eq!(stored_created.timestamp(), created.seconds);
        assert_eq!(stored_created.timestamp_subsec_nanos(), created.nanos);
        assert_eq!(stored_updated.timestamp(), updated.seconds);
        assert_eq!(stored_updated.timestamp_subsec_nanos(), updated.nanos);
        pool.close().await;
        Sqlite::drop_database(&url).await.unwrap();
    });
}
