use qubl::{
    BracketType, Decimal, ForeignKey, ForeignKeyActions, ForeignKeyItem, JsonValue, QueryBuilder,
    SchemaBuilder, TableBuilder, Timezone, ValueType,
};


#[test]
fn test_schema_query_declarative(){
    let schema = SchemaBuilder::create("blog_website").unwrap().if_not_exists().unwrap().finish();

    assert_eq!("CREATE DATABASE IF NOT EXISTS blog_website;", schema);
}

#[test]
fn test_schema_query_imperative(){
    let mut schema = SchemaBuilder::create("blog_website").unwrap();
    schema.if_not_exists().unwrap();
    let schema_query = schema.finish();

    assert_eq!("CREATE DATABASE IF NOT EXISTS blog_website;", schema_query);
}

#[test]
fn test_use_another_schema(){
    let schema = SchemaBuilder::use_another_schema("chat_website").unwrap().finish();

    assert_eq!("USE chat_website;", schema);
}

#[test]
fn test_insert_query(){
    let columns = vec!["title", "author", "description"];
    let values = vec![ValueType::String("What's Up?".to_string()), ValueType::String("John Doe".to_string()), ValueType::String("Lorem ipsum dolor sit amet, consectetur adipiscing elit.".to_string())];

    let insert_query = QueryBuilder::insert(columns, values).unwrap().table("blogs").finish();

    println!("{}", insert_query);
    assert_eq!("INSERT INTO blogs (title, author, description) VALUES ('What's Up?', 'John Doe', 'Lorem ipsum dolor sit amet, consectetur adipiscing elit.');".to_string(), 
                insert_query);
}

#[test]
fn test_update_query(){
    let update_query = QueryBuilder::update().unwrap().table("blogs").set("title", ValueType::String("Hello Rust!".to_string())).unwrap().set("author", ValueType::String("Necdet".to_string())).unwrap().finish();

    assert_eq!("UPDATE blogs SET title = 'Hello Rust!', author = 'Necdet';", update_query);
}

#[test]
fn test_delete_query(){
    let delete_query = QueryBuilder::delete().unwrap().table("blogs").where_("id", "=", ValueType::String("1".to_string())).unwrap().finish();

    assert_eq!("DELETE FROM blogs WHERE id = '1';", delete_query);
}

#[test]
fn test_select_query_declarative(){
    let mut select = QueryBuilder::select(["id", "title", "description", "point"].to_vec()).unwrap();

    let select_query = select.table("blogs")
                                .where_("id", "=", ValueType::Int32(10)).unwrap()
                                .and("point", ">", ValueType::Int8(90)).unwrap()
                                .or("id", "=", ValueType::Int64(20)).unwrap()
                                .finish();

    assert_eq!("SELECT id, title, description, point FROM blogs WHERE id = 10 AND point > 90 OR id = 20;", select_query)
}

#[test]
fn test_select_query_imperative(){
    let mut select = QueryBuilder::select(["*"].to_vec()).unwrap();

    let select_query = select.table("blogs");
    select_query.where_("id", "=", ValueType::Uint8(5)).unwrap();
    select_query.or("id", "=", ValueType::Usize(25)).unwrap();

    let finish_the_select_query = select_query.finish();

    assert_eq!("SELECT * FROM blogs WHERE id = 5 OR id = 25;", finish_the_select_query);
}

#[test]
fn test_create_table() {
    let mut table_builder_2 = TableBuilder::create("blabla", "projects");
    let table_builder_2 = table_builder_2.if_not_exists();

    table_builder_2.add_column("id").col_type("INT").unwrap().primary_key().unwrap().auto_increment();
    table_builder_2.add_column("name").col_type("VARCHAR(40)").unwrap().not_null();
    table_builder_2.add_column("owner_id").col_type("INT").unwrap().not_null();
    
    // if we create a table, the first ForeignKeyItem's table field is not necessary.
    let opts = ForeignKey {
        first: ForeignKeyItem { table: "".to_string(), column: "owner_id".to_string() },
        second: ForeignKeyItem { table: "users".to_string(), column: "id".to_string() },
        constraint: None,
        on_delete: Some(ForeignKeyActions::Cascade),
        on_update: None
    };
    
    table_builder_2.foreign_key(opts);

    let table_builder_2 = table_builder_2.finish();

    let raw_query = "CREATE TABLE projects IF NOT EXISTS (id INT PRIMARY KEY AUTO_INCREMENT, name VARCHAR(40) NOT NULL, owner_id INT NOT NULL, FOREIGN KEY (owner_id) REFERENCES users(id) ON DELETE CASCADE);".to_string();

    assert_eq!(raw_query, table_builder_2);
}

#[test]
fn test_time_value_type(){
    let columns = ["name", "password", "last_login"].to_vec();
    let values = [ValueType::String("necoo33".to_string()), ValueType::String("123456".to_string()), ValueType::Datetime("CURRENT_TIMESTAMP".to_string())].to_vec();

    let time_insert_test = QueryBuilder::insert(columns, values).unwrap().table("users").finish();

    assert_eq!(time_insert_test, "INSERT INTO users (name, password, last_login) VALUES ('necoo33', '123456', CURRENT_TIMESTAMP);");

    let time_update_test = QueryBuilder::update().unwrap().table("users").set("last_login", ValueType::Datetime("CURRENT_TIMESTAMP".to_string())).unwrap().where_("name", "=", ValueType::String("necoo33".to_string())).unwrap().finish();

    assert_eq!(time_update_test, "UPDATE users SET last_login = CURRENT_TIMESTAMP WHERE name = 'necoo33';")
}

#[test]
fn test_unix_epoch_times(){
    let columns = ["name", "password", "last_login"].to_vec();
    let values = [ValueType::String("necoo33".to_string()), ValueType::String("123456".to_string()), ValueType::EpochTime(134523452)].to_vec();

    let time_insert_with_unix_epoch_times_test = QueryBuilder::insert(columns, values).unwrap().table("users").finish();
    assert_eq!(time_insert_with_unix_epoch_times_test, "INSERT INTO users (name, password, last_login) VALUES ('necoo33', '123456', FROM_UNIXTIME(134523452));");

    let time_update_with_unix_epoch_times_test = QueryBuilder::update().unwrap().table("users").set("last_login", ValueType::EpochTime(3456436)).unwrap().where_("name", "=", ValueType::String("necoo33".to_string())).unwrap().finish();

    assert_eq!(time_update_with_unix_epoch_times_test, "UPDATE users SET last_login = FROM_UNIXTIME(3456436) WHERE name = 'necoo33';");

    let columns = ["name", "password", "last_login", "created_at"].to_vec();

    let unix_epoch_times_test_3 = QueryBuilder::select(columns).unwrap().table("users").where_("created_at", ">", ValueType::EpochTime(3234534)).unwrap().or("last_login", ">=", ValueType::EpochTime(2134432)).unwrap().offset(0).limit(20).finish();

    assert_eq!(unix_epoch_times_test_3, "SELECT name, password, last_login, created_at FROM users WHERE created_at > FROM_UNIXTIME(3234534) OR last_login >= FROM_UNIXTIME(2134432) OFFSET 0 LIMIT 20;")
}

#[test]
fn test_where_ins(){
    let columns = ["name", "age", "id", "last_login"].to_vec();

    let ids = [ValueType::Int32(1), ValueType::Int16(12), ValueType::Int64(8)].to_vec();

    let test_where_in = QueryBuilder::select(columns).unwrap().table("users").where_in("id", &ids).unwrap().finish();

    assert_eq!(test_where_in, "SELECT name, age, id, last_login FROM users WHERE id IN (1, 12, 8);");

    let columns = ["name", "age", "id", "last_login"].to_vec();

    let ids = [ValueType::Int32(1), ValueType::Int16(12), ValueType::Int32(8)].to_vec();

    let test_where_not_in = QueryBuilder::select(columns).unwrap().table("users").where_not_in("id", &ids).unwrap().finish();

    assert_eq!(test_where_not_in, "SELECT name, age, id, last_login FROM users WHERE id NOT IN (1, 12, 8);");

    let columns = ["name", "age", "id", "last_login"].to_vec();

    let test_where_in_custom = QueryBuilder::select(columns).unwrap().table("users").where_in_custom("id", "1, 12, 8").finish();

    assert_eq!(test_where_in_custom, "SELECT name, age, id, last_login FROM users WHERE id IN (1, 12, 8);");

    let columns = ["name", "age", "id", "last_login"].to_vec();

    let test_where_not_in_custom = QueryBuilder::select(columns).unwrap().table("users").where_not_in_custom("id", "1, 12, 8").finish();

    assert_eq!(test_where_not_in_custom, "SELECT name, age, id, last_login FROM users WHERE id NOT IN (1, 12, 8);");

    // test AND IN's

    let columns = ["name", "id", "last_login"].to_vec();

    let ids = [ValueType::Int32(1), ValueType::Int16(12), ValueType::Int64(8)].to_vec();

    let test_and_in = QueryBuilder::select(columns).unwrap().table("users").where_("age", ">", ValueType::Int32(35)).unwrap().and_in("id", &ids).unwrap().finish();

    assert_eq!(test_and_in, "SELECT name, id, last_login FROM users WHERE age > 35 AND id IN (1, 12, 8);");

    let columns = ["name", "id", "last_login"].to_vec();

    let ids = [ValueType::Int32(1), ValueType::Int16(12), ValueType::Int64(8)].to_vec();

    let test_and_not_in = QueryBuilder::select(columns).unwrap().table("users").where_("age", ">", ValueType::Int32(35)).unwrap().and_not_in("id", &ids).unwrap().finish();

    assert_eq!(test_and_not_in, "SELECT name, id, last_login FROM users WHERE age > 35 AND id NOT IN (1, 12, 8);");

    // test OR IN's

    let columns = ["name", "id", "last_login"].to_vec();

    let ids = [ValueType::Int32(1), ValueType::Int16(12), ValueType::Int64(8)].to_vec();

    let test_or_in = QueryBuilder::select(columns).unwrap().table("users").where_("age", ">", ValueType::Int32(35)).unwrap().or_in("id", &ids).unwrap().finish();

    assert_eq!(test_or_in, "SELECT name, id, last_login FROM users WHERE age > 35 OR id IN (1, 12, 8);");

    let columns = ["name", "id", "last_login"].to_vec();

    let ids = [ValueType::Int32(1), ValueType::Int16(12), ValueType::Int64(8)].to_vec();

    let test_or_not_in = QueryBuilder::select(columns).unwrap().table("users").where_("age", ">", ValueType::Int32(35)).unwrap().or_not_in("id", &ids).unwrap().finish();

    assert_eq!(test_or_not_in, "SELECT name, id, last_login FROM users WHERE age > 35 OR id NOT IN (1, 12, 8);")
}

#[test]
fn test_count() {
    let count_of_users = QueryBuilder::count("*", None).table("users").where_("age", ">", ValueType::Int32(25)).unwrap().finish();

    assert_eq!(count_of_users, "SELECT COUNT(*) FROM users WHERE age > 25;".to_string());

    let count_of_users_as_length = QueryBuilder::count("*", Some("length")).table("users").finish();

    assert_eq!(count_of_users_as_length, "SELECT COUNT(*) AS length FROM users;".to_string());
}

#[test]
fn test_json_extract(){
    // tests with "select()" constructor

    let select_query_1 = QueryBuilder::select(["*"].to_vec()).unwrap().json_extract("data", ".age", Some("student_age")).unwrap().table("students").finish();

    assert_eq!(select_query_1, "SELECT JSON_EXTRACT(data, '$.age') AS student_age FROM students;".to_string());
    
    let select_query_2 = QueryBuilder::select(["*"].to_vec()).unwrap().json_extract("data", ".age", Some("student_age")).unwrap().table("students").where_("successfull", "=", ValueType::Int8(1)).unwrap().finish();

    assert_eq!(select_query_2, "SELECT JSON_EXTRACT(data, '$.age') AS student_age FROM students WHERE successfull = 1;".to_string());
    
    let select_query_3 = QueryBuilder::select(["*"].to_vec()).unwrap().json_extract("data", ".age", Some("student_age")).unwrap().table("students").where_("points", ">", ValueType::Int32(85)).unwrap().json_extract("points", ".name", None).unwrap().finish();

    assert_eq!(select_query_3, "SELECT JSON_EXTRACT(data, '$.age') AS student_age FROM students WHERE JSON_EXTRACT(points, '$.name') > 85;".to_string());

    // tests with ".where_()" method

    let with_where = QueryBuilder::delete().unwrap().table("users").where_("id", ">", ValueType::Int32(200)).unwrap().json_extract("id", ".user_id", None).unwrap().finish();

    assert_eq!(with_where, "DELETE FROM users WHERE JSON_EXTRACT(id, '$.user_id') > 200;".to_string());

    // tests with ".table()" method
    
    let fields = ["name", "age"].to_vec();
    
    let with_table = QueryBuilder::select(fields).unwrap().table("users").json_extract("id", ".user_id", None).unwrap().finish();

    assert_eq!(with_table, "SELECT JSON_EXTRACT(id, '$.user_id') FROM users;".to_string());

    // tests with ".and()" method

    let fields = ["name", "age"].to_vec();

    let with_and_1 = QueryBuilder::select(fields).unwrap().table("height").where_("weight", ">", ValueType::Int32(60)).unwrap().and("height", ">", ValueType::Float64(Decimal::new(170, 2))).unwrap().json_extract("height", ".student_height", None).unwrap().finish();

    assert_eq!(with_and_1, "SELECT name, age FROM height WHERE weight > 60 AND JSON_EXTRACT(height, '$.student_height') > 1.7;".to_string());

    let with_and_2 = QueryBuilder::select(["*"].to_vec()).unwrap().table("students").where_("weight", ">", ValueType::Int32(60)).unwrap().and("height", ">", ValueType::Float64(Decimal::new(170, 2))).unwrap().json_extract("height", ".student_height", None).unwrap().finish();

    assert_eq!(with_and_2, "SELECT * FROM students WHERE weight > 60 AND JSON_EXTRACT(height, '$.student_height') > 1.7;".to_string());

    // tests with ".or()" method

    let fields = ["name", "age"].to_vec();

    let with_or_1 = QueryBuilder::select(fields).unwrap().table("height").where_("weight", ">", ValueType::Int32(60)).unwrap().or("height", ">", ValueType::Float64(Decimal::new(171, 2))).unwrap().json_extract("height", ".student_height", None).unwrap().finish();

    assert_eq!(with_or_1, "SELECT name, age FROM height WHERE weight > 60 OR JSON_EXTRACT(height, '$.student_height') > 1.71;".to_string());

    let with_or_2 = QueryBuilder::select(["*"].to_vec()).unwrap().table("students").where_("weight", ">", ValueType::Int32(60)).unwrap().or("height", ">", ValueType::Float64(Decimal::new(171, 2))).unwrap().json_extract("height", ".student_height", None).unwrap().finish();

    assert_eq!(with_or_2, "SELECT * FROM students WHERE weight > 60 OR JSON_EXTRACT(height, '$.student_height') > 1.71;".to_string());

    // tests with "count()" constructor

    let count_query_1 = QueryBuilder::count("*", None).json_extract("age", ".student_age", Some("value")).unwrap().table("students").group_by("points").having("points", ">", ValueType::Int32(75)).unwrap().finish();

    assert_eq!(count_query_1, "SELECT JSON_EXTRACT(age, '$.student_age') AS value, COUNT(*) FROM students GROUP BY points HAVING points > 75;".to_string());

    // tests with ".order_by()" method
    
    let fields = ["title", "desc", "created_at", "updated_at", "keywords", "pics", "likes"].to_vec();

    let order_by_query_1 = QueryBuilder::select(fields).unwrap().table("contents").where_("published", "=", ValueType::Int32(1)).unwrap().order_by("likes", "ASC").unwrap().json_extract("likes", ".name", None).unwrap().finish();

    assert_eq!(order_by_query_1, "SELECT title, desc, created_at, updated_at, keywords, pics, likes FROM contents WHERE published = 1 ORDER BY JSON_EXTRACT(likes, '$.name') ASC;".to_string());

    // tests with ".json_extract()" method

    let json_extract_chaining = QueryBuilder::select(["*"].to_vec()).unwrap().json_extract("articles", "[0]", Some("blog1")).unwrap().json_extract("articles", "[1]", Some("blog2")).unwrap().json_extract("articles", "[2]", Some("blog3")).unwrap().table("users").where_("published", "=", ValueType::Int32(1)).unwrap().finish();

    assert_eq!(json_extract_chaining, "SELECT JSON_EXTRACT(articles, '$[0]') AS blog1, JSON_EXTRACT(articles, '$[1]') AS blog2, JSON_EXTRACT(articles, '$[2]') AS blog3 FROM users WHERE published = 1;".to_string());
}

#[test]
fn test_json_contains(){
    // test with "select()" constructor:

    let ins = [ValueType::Int32(1), ValueType::Int32(5), ValueType::Int64(11)].to_vec();
    let select_query = QueryBuilder::select(["*"].to_vec()).unwrap().json_contains("pic", JsonValue::Initial(&ValueType::String("\"/files/hello.jpg\"".to_string())), Some(".path")).unwrap().table("users").where_in("id", &ins).unwrap().finish();

    assert_eq!(select_query, "SELECT JSON_CONTAINS(pic, '\"/files/hello.jpg\"', '$.path') FROM users WHERE id IN (1, 5, 11);".to_string());

    // test with ".where_()" method:

    let where_query = QueryBuilder::select(["*"].to_vec()).unwrap().table("users").where_("pic", "=", ValueType::String("".to_string())).unwrap().json_contains("pic", JsonValue::Initial(&ValueType::String("\"blablabla.jpg\"".to_string())), Some(".name")).unwrap().finish();

    assert_eq!(where_query, "SELECT * FROM users WHERE JSON_CONTAINS(pic, '\"blablabla.jpg\"', '$.name');".to_string());

    let and_query_1 = QueryBuilder::select(["*"].to_vec()).unwrap().table("users").where_("age", ">", ValueType::Int32(15)).unwrap().and("asdfasdf", ">", ValueType::String("".to_string())).unwrap().json_contains("graduation_stats", JsonValue::Initial(&ValueType::Float64(Decimal::new(8011, 2))), Some(".average_point")).unwrap().finish();

    assert_eq!(and_query_1, "SELECT * FROM users WHERE age > 15 AND JSON_CONTAINS(graduation_stats, 80.11, '$.average_point');".to_string());

    let and_query_2 = QueryBuilder::select(["*"].to_vec()).unwrap().table("users").where_("age", ">", ValueType::Int32(15)).unwrap().and("class", "=", ValueType::String("5/c".to_string())).unwrap().and("asdfasdf", ">", ValueType::String("".to_string())).unwrap().json_contains("graduation_stats", JsonValue::Initial(&ValueType::Float64(Decimal::new(8011, 2))), Some(".average_point")).unwrap().finish();

    assert_eq!(and_query_2, "SELECT * FROM users WHERE age > 15 AND class = '5/c' AND JSON_CONTAINS(graduation_stats, 80.11, '$.average_point');".to_string());
    
    let and_query_3 = QueryBuilder::select(["*"].to_vec()).unwrap().table("users").where_("age", ">", ValueType::Int32(15)).unwrap().and("class", "=", ValueType::String("5/c".to_string())).unwrap().and("surname", "=", ValueType::String("etiman".to_string())).unwrap().and("asdfasdf", ">", ValueType::String("".to_string())).unwrap().json_contains("graduation_stats", JsonValue::Initial(&ValueType::Float64(Decimal::new(8011, 2))), Some(".average_point")).unwrap().finish();

    assert_eq!(and_query_3, "SELECT * FROM users WHERE age > 15 AND class = '5/c'  AND surname = 'etiman' AND JSON_CONTAINS(graduation_stats, 80.11, '$.average_point');".to_string());

    let and_query_4 = QueryBuilder::select(["*"].to_vec()).unwrap().table("users").where_("age", ">", ValueType::Int32(15)).unwrap().and("sdfgsdfg", "=", ValueType::String("".to_string())).unwrap().json_contains("parents", JsonValue::Initial(&ValueType::Int32(50)), Some(".age")).unwrap().and("surname", "=", ValueType::String("etiman".to_string())).unwrap().and("asdfasdf", ">", ValueType::String("".to_string())).unwrap().json_contains("graduation_stats", JsonValue::Initial(&ValueType::Float32(Decimal::new(8011, 2))), Some(".average_point")).unwrap().finish();

    assert_eq!(and_query_4, "SELECT * FROM users WHERE age > 15 AND JSON_CONTAINS(parents, 50, '$.age')  AND surname = 'etiman' AND JSON_CONTAINS(graduation_stats, 80.11, '$.average_point');".to_string());

    let and_query_5 = QueryBuilder::select(["*"].to_vec()).unwrap().table("users").where_("age", ">", ValueType::Int32(15)).unwrap().and("sdfgsdfg", "=", ValueType::String("".to_string())).unwrap().json_contains("parents", JsonValue::Initial(&ValueType::Int32(50)), Some(".age")).unwrap().and("asdfasdf", ">", ValueType::String("".to_string())).unwrap().json_contains("graduation_stats", JsonValue::Initial(&ValueType::Float64(Decimal::new(8011, 2))), Some(".average_point")).unwrap().finish();

    assert_eq!(and_query_5, "SELECT * FROM users WHERE age > 15 AND JSON_CONTAINS(parents, 50, '$.age') AND JSON_CONTAINS(graduation_stats, 80.11, '$.average_point');".to_string());
    
    let or_query_1 = QueryBuilder::select(["*"].to_vec()).unwrap().table("users").where_("age", ">", ValueType::Int32(15)).unwrap().or("asdfasdf", ">", ValueType::String("".to_string())).unwrap().json_contains("graduation_stats", JsonValue::Initial(&ValueType::Float32(Decimal::new(8011, 2))), Some(".average_point")).unwrap().finish();

    assert_eq!(or_query_1, "SELECT * FROM users WHERE age > 15 OR JSON_CONTAINS(graduation_stats, 80.11, '$.average_point');".to_string());
    
    let or_query_2 = QueryBuilder::select(["*"].to_vec()).unwrap().table("users").where_("age", ">", ValueType::Int32(15)).unwrap().or("class", "=", ValueType::String("5/c".to_string())).unwrap().or("asdfasdf", ">", ValueType::String("".to_string())).unwrap().json_contains("graduation_stats", JsonValue::Initial(&ValueType::Float64(Decimal::new(8011, 2))), Some(".average_point")).unwrap().finish();
    
    assert_eq!(or_query_2, "SELECT * FROM users WHERE age > 15 OR class = '5/c' OR JSON_CONTAINS(graduation_stats, 80.11, '$.average_point');".to_string());
            
    let or_query_3 = QueryBuilder::select(["*"].to_vec()).unwrap().table("users").where_("age", ">", ValueType::Int32(15)).unwrap().or("class", "=", ValueType::String("5/c".to_string())).unwrap().or("surname", "=", ValueType::String("etiman".to_string())).unwrap().or("asdfasdf", ">", ValueType::String("".to_string())).unwrap().json_contains("graduation_stats", JsonValue::Initial(&ValueType::Float64(Decimal::new(8011, 2))), Some(".average_point")).unwrap().finish();
        
    assert_eq!(or_query_3, "SELECT * FROM users WHERE age > 15 OR class = '5/c'  OR surname = 'etiman' OR JSON_CONTAINS(graduation_stats, 80.11, '$.average_point');".to_string());
    
    let or_query_4 = QueryBuilder::select(["*"].to_vec()).unwrap().table("users").where_("age", ">", ValueType::Int32(15)).unwrap().or("sdfgsdfg", "=", ValueType::String("".to_string())).unwrap().json_contains("parents", JsonValue::Initial(&ValueType::Int32(50)), Some(".age")).unwrap().or("surname", "=", ValueType::String("etiman".to_string())).unwrap().or("asdfasdf", ">", ValueType::String("".to_string())).unwrap().json_contains("graduation_stats", JsonValue::Initial(&ValueType::Float64(Decimal::new(8011, 2))), Some(".average_point")).unwrap().finish();
        
    assert_eq!(or_query_4, "SELECT * FROM users WHERE age > 15 OR JSON_CONTAINS(parents, 50, '$.age')  OR surname = 'etiman' OR JSON_CONTAINS(graduation_stats, 80.11, '$.average_point');".to_string());
    
    let or_query_5 = QueryBuilder::select(["*"].to_vec()).unwrap().table("users").where_("age", ">", ValueType::Int32(15)).unwrap().or("sdfgsdfg", "=", ValueType::String("".to_string())).unwrap().json_contains("parents", JsonValue::Initial(&ValueType::Int64(50)), Some(".age")).unwrap().or("asdfasdf", ">", ValueType::String("".to_string())).unwrap().json_contains("graduation_stats", JsonValue::Initial(&ValueType::Float32(Decimal::new(8011, 2))), Some(".average_point")).unwrap().finish();
        
    assert_eq!(or_query_5, "SELECT * FROM users WHERE age > 15 OR JSON_CONTAINS(parents, 50, '$.age') OR JSON_CONTAINS(graduation_stats, 80.11, '$.average_point');".to_string());

    let name = ValueType::JsonString("necdet".to_string());
    let id = ValueType::Int32(1);
    let is_active = ValueType::Boolean(true);

    let object = vec![("name", &name), ("id", &id), ("isActive", &is_active)];

    let mysql_json_object = JsonValue::MysqlJsonObject(&object);

    let where_query_2 = QueryBuilder::select(["*"].to_vec()).unwrap().table("users").where_("pic", "=", ValueType::String("".to_string())).unwrap().json_contains("pic", mysql_json_object, Some("")).unwrap().finish();

    assert_eq!("SELECT * FROM users WHERE JSON_CONTAINS(pic, JSON_OBJECT('name', \"necdet\", 'id', 1, 'isActive', true), '$');", where_query_2)
}

#[test]
fn test_like_later_than_where_keywords(){
    let mut like_query_1 = QueryBuilder::select(["*"].to_vec()).unwrap();

    let like_query_1 = like_query_1.table("blogs")
                                                  .where_("id", "=", ValueType::Int32(5)).unwrap()
                                                  .like(["title", "description"].to_vec(), "hello").unwrap()
                                                  .finish();

    assert_eq!(like_query_1, "SELECT * FROM blogs WHERE id = 5 AND (title LIKE '%hello%' OR description LIKE '%hello%');");

    let mut like_query_2 = QueryBuilder::select(["*"].to_vec()).unwrap();

    let ins = vec![ValueType::Int32(1), ValueType::Int32(2), ValueType::Int32(3)];
    let like_query_2 = like_query_2.table("blogs")
                                                      .where_in("id", &ins).unwrap()
                                                      .like(["title", "description", "keywords"].to_vec(), "necdet").unwrap()
                                                      .limit(10)
                                                      .offset(0)
                                                      .finish();

    assert_eq!(like_query_2, "SELECT * FROM blogs WHERE id IN (1, 2, 3) AND (title LIKE '%necdet%' OR description LIKE '%necdet%' OR keywords LIKE '%necdet%') LIMIT 10 OFFSET 0;")
}

#[test]
fn test_ordering_functions(){
    let order_by_query = QueryBuilder::select(["*"].to_vec()).unwrap().table("users").order_by("id", "asc").unwrap().order_by("weight", "desc").unwrap().order_by("point", "asc").unwrap().finish();

    assert_eq!(order_by_query, "SELECT * FROM users ORDER BY id ASC, weight DESC, point ASC;");

    let order_by_random_query = QueryBuilder::select(["*"].to_vec()).unwrap().table("users").order_random().unwrap().finish();

    assert_eq!(order_by_random_query, "SELECT * FROM users ORDER BY RAND();");

    let roles = ["admin", "moderator", "member", "guest"].to_vec();
    let field_query_1 = QueryBuilder::select(["*"].to_vec()).unwrap().table("users").order_by_field("role", roles.clone()).unwrap().finish();

    assert_eq!(field_query_1, "SELECT * FROM users ORDER BY FIELD(role, 'admin', 'moderator', 'member', 'guest');");

    let field_query_2 = QueryBuilder::select(["*"].to_vec()).unwrap().table("users").order_by("id", "asc").unwrap().order_by_field("role", roles.clone()).unwrap().finish();

    assert_eq!(field_query_2, "SELECT * FROM users ORDER BY id ASC, FIELD(role, 'admin', 'moderator', 'member', 'guest');");

    let field_query_3 = QueryBuilder::select(["*"].to_vec()).unwrap().table("users").order_by_field("role", roles.clone()).unwrap().order_by("id", "asc").unwrap().finish();

    assert_eq!(field_query_3, "SELECT * FROM users ORDER BY FIELD(role, 'admin', 'moderator', 'member', 'guest'), id ASC;");
    
    let field_query_4 = QueryBuilder::select(["*"].to_vec()).unwrap().table("users").order_by_field("role", roles).unwrap().order_by_field("status", vec!["active", "banned", "unverified"]).unwrap().finish();

    assert_eq!(field_query_4, "SELECT * FROM users ORDER BY FIELD(role, 'admin', 'moderator', 'member', 'guest'), FIELD(status, 'active', 'banned', 'unverified');");
}

#[test]
fn test_unions(){
    let mut union_1 = QueryBuilder::select(vec!["name", "age", "id"]).unwrap();
    union_1.table("users").where_("age", ">", ValueType::Int32(7)).unwrap();

    let union_2 = QueryBuilder::select(vec!["name", "age", "id"]).unwrap()
                                                      .table("users")
                                                      .where_("age", "<", ValueType::Int32(15)).unwrap()
                                                      .union(vec![union_1])
                                                      .finish();

    assert_eq!(union_2, "(SELECT name, age, id FROM users WHERE age < 15) UNION (SELECT name, age, id FROM users WHERE age > 7);");

    let mut union_1 = QueryBuilder::select(vec!["id", "title", "description", "published"]).unwrap();
    union_1.table("blogs").like(vec!["title"], "text").unwrap();

    let mut union_2 = QueryBuilder::select(vec!["id", "title", "description", "published"]).unwrap();
    union_2.table("blogs").like(vec!["description"], "some text").unwrap();

    let union_3 = QueryBuilder::select(vec!["id", "title", "description", "published"]).unwrap()
                                                          .table("blogs")
                                                          .where_("published", "=", ValueType::Boolean(true)).unwrap()
                                                          .union_all(vec![union_1, union_2])
                                                          .finish();

    assert_eq!(union_3, "(SELECT id, title, description, published FROM blogs WHERE published = true) UNION ALL (SELECT id, title, description, published FROM blogs WHERE title LIKE '%text%') UNION ALL (SELECT id, title, description, published FROM blogs WHERE description LIKE '%some text%');");
}

#[test]
fn test_json_value(){
    let name = ValueType::JsonString("necdet".to_string());
    let age = ValueType::Int8(25);
    let id = ValueType::Int32(1);

    let values = vec![("name", &name), ("age", &age), ("id", &id)];

    let json_object = JsonValue::Object(&values);

    assert_eq!("{\"name\": \"necdet\", \"age\": 25, \"id\": 1}", json_object.to_string());

    let mysql_json_object = JsonValue::MysqlJsonObject(&values);

    assert_eq!("JSON_OBJECT('name', \"necdet\", 'age', 25, 'id', 1)", mysql_json_object.to_string());

    let name2 = ValueType::JsonString("cevdet".to_string());
    let age2 = ValueType::Int8(24);
    let id2 = ValueType::Int32(2);

    let name3 = ValueType::JsonString("serap".to_string());
    let age3 = ValueType::Int8(21);
    let id3 = ValueType::Int32(3);

    let object1 = vec![("name", &name), ("age", &age), ("id", &id)];
    let object2 = vec![("name", &name2), ("age", &age2), ("id", &id2)];
    let object3 = vec![("name", &name3), ("age", &age3), ("id", &id3)];

    let objects = vec![object1, object2, object3];
    
    let json_array = JsonValue::ObjectArray(&objects);

    assert_eq!("[{\"name\": \"necdet\", \"age\": 25, \"id\": 1}, {\"name\": \"cevdet\", \"age\": 24, \"id\": 2}, {\"name\": \"serap\", \"age\": 21, \"id\": 3}]", json_array.to_string());
}

#[test]
fn test_json_array_append(){
    let lesson = ("lesson", &ValueType::String("math".to_string()));
    let point = ("point", &ValueType::Int32(100));

    let values = vec![lesson, point];
    
    let object = JsonValue::MysqlJsonObject(&values);

    let query = QueryBuilder::update().unwrap()
                                     .table("users")
                                     .json_array_append("points", Some(""), object.clone())
                                     .where_("id", "=", ValueType::Int8(1)).unwrap()
                                     .finish();

    assert_eq!("UPDATE users SET points = JSON_ARRAY_APPEND(points, '$', JSON_OBJECT('lesson', 'math', 'point', 100)) WHERE id = 1;", query);

    let query = QueryBuilder::update().unwrap()
                                     .table("users")
                                     .set("status", ValueType::String("passed".to_string())).unwrap()
                                     .json_array_append("points", Some(""), object)
                                     .where_("id", "=", ValueType::Int8(1)).unwrap()
                                     .finish();

    assert_eq!("UPDATE users SET status = 'passed', points = JSON_ARRAY_APPEND(points, '$', JSON_OBJECT('lesson', 'math', 'point', 100)) WHERE id = 1;", query);
}

#[test]
fn test_json_remove() {
    let query = QueryBuilder::update().unwrap()
                                     .table("blogs")
                                     .json_remove("likes", vec!["[10]"]).unwrap()
                                     .where_("blog_id", "=", ValueType::Int32(20)).unwrap()
                                     .finish();

    assert_eq!(query, "UPDATE blogs SET likes = JSON_REMOVE(likes, '$[10]') WHERE blog_id = 20;");
    
    let query = QueryBuilder::update().unwrap()
                                     .table("blogs")
                                     .set("blabla", ValueType::Int32(50)).unwrap()
                                     .json_remove("likes", vec!["[10]", "[11]", "[12]"]).unwrap()
                                     .where_("blog_id", "=", ValueType::Int32(20)).unwrap()
                                     .finish();

    println!("{}", query)
}

#[test]
fn test_json_set_and_json_replace(){
    let lesson = ("lesson", &ValueType::String("math".to_string()));
    let point = ("point", &ValueType::Int32(100));

    let values = vec![lesson, point];
    
    let object = JsonValue::MysqlJsonObject(&values);

    let query = QueryBuilder::update().unwrap()
                                                    .table("users")
                                                    .json_set("points", "[0]", object)
                                                    .where_("id", "=", ValueType::Int32(1)).unwrap()
                                                    .finish();

    assert_eq!("UPDATE users SET points = JSON_SET(points, '$[0]', JSON_OBJECT('lesson', 'math', 'point', 100)) WHERE id = 1;", query);

    let value = ValueType::Int32(100);
    let value = JsonValue::Initial(&value);

    let query = QueryBuilder::update().unwrap()
                                     .table("users")
                                     .json_replace("points", "[0].point", value)
                                     .where_("id", "=", ValueType::Int32(1)).unwrap()
                                     .finish();

    assert_eq!("UPDATE users SET points = JSON_REPLACE(points, '$[0].point', 100) WHERE id = 1;", query)
}

#[test]
fn test_json_value_initial_bugfix(){
    let file_name_val = ValueType::JsonString("chemistry".to_string());
    let file_name_val = JsonValue::Initial(&file_name_val);

    let query = QueryBuilder::select(vec!["lesson_points"]).unwrap()
                                     .json_extract("points", &format!("[{}]", 2), Some("point")).unwrap()
                                     .table("students")
                                     .where_("id", "=", ValueType::Int32(5)).unwrap()
                                     .and("adsf", "=", ValueType::Null).unwrap()
                                     .json_contains("points", file_name_val, Some(&format!("[{}].name", 0))).unwrap()
                                     .finish();

    assert_eq!("SELECT JSON_EXTRACT(points, '$[2]') AS point FROM students WHERE id = 5 AND JSON_CONTAINS(points, '\"chemistry\"', '$[0].name');", query);
}

#[test]
fn test_timezones(){
    let query = QueryBuilder::select(vec!["*"]).unwrap().table("users").time_zone(Timezone::Istanbul).finish();

    assert_eq!(query, "SET time_zone = Europe/Istanbul; SELECT * FROM users;");
    
    let query = QueryBuilder::select(vec!["*"]).unwrap()
                                     .table("users")
                                     .global_time_zone(Timezone::Amsterdam)
                                     .where_("id", "=", ValueType::Int32(3)).unwrap()
                                     .and("surname", "=", ValueType::String("Doe".to_string())).unwrap()
                                     .finish();

    assert_eq!(query, "SET GLOBAL time_zone = Europe/Amsterdam; SELECT * FROM users WHERE id = 3 AND surname = 'Doe';");

    let query = QueryBuilder::update().unwrap().table("users").time_zone(Timezone::NewYork).set("age", ValueType::Int32(26)).unwrap().set("last_online_date", ValueType::Datetime("CURRENT_TIMESTAMP".to_string())).unwrap().where_("id", "=", ValueType::Int32(234)).unwrap().finish();

    assert_eq!(query, "SET time_zone = America/New_York; UPDATE users SET age = 26, last_online_date = CURRENT_TIMESTAMP WHERE id = 234;");

    let query = QueryBuilder::update().unwrap().table("users").set("age", ValueType::Int32(26)).unwrap().global_time_zone(Timezone::NewYork).set("last_online_date", ValueType::Datetime("CURRENT_TIMESTAMP".to_string())).unwrap().where_("id", "=", ValueType::Int32(234)).unwrap().finish();

    assert_eq!(query, "SET GLOBAL time_zone = America/New_York; UPDATE users SET age = 26, last_online_date = CURRENT_TIMESTAMP WHERE id = 234;");
}

#[test]
fn test_joins(){
    let query = QueryBuilder::select(vec!["*"]).unwrap()
                                     .table("students s")
                                     .inner_join("grades g", "s.id", "=", "g.student_id")
                                     .where_("id", "=", ValueType::Int32(10)).unwrap()
                                     .finish();

    assert_eq!(query, "SELECT * FROM students s INNER JOIN grades g ON s.id = g.student_id WHERE id = 10;");

    let query = QueryBuilder::select(vec!["*"]).unwrap()
                                     .table("students s")
                                     .left_join("grades g", "s.id", "=", "g.student_id")
                                     .where_("id", "=", ValueType::Int32(10)).unwrap()
                                     .finish();

    assert_eq!(query, "SELECT * FROM students s LEFT JOIN grades g ON s.id = g.student_id WHERE id = 10;");

    let query = QueryBuilder::select(vec!["*"]).unwrap()
                                     .table("students s")
                                     .right_join("grades g", "s.id", "=", "g.student_id")
                                     .where_("id", "=", ValueType::Int32(10)).unwrap()
                                     .finish();

    assert_eq!(query, "SELECT * FROM students s RIGHT JOIN grades g ON s.id = g.student_id WHERE id = 10;");

    let query = QueryBuilder::select(vec!["*"]).unwrap()
                                     .table("students s")
                                     .cross_join("grades g")
                                     .where_("id", "=", ValueType::Int32(10)).unwrap()
                                     .finish();

    assert_eq!(query, "SELECT * FROM students s CROSS JOIN grades g WHERE id = 10;");

    let query = QueryBuilder::select(vec!["*"]).unwrap()
                                     .table("students s")
                                     .natural_join("grades g")
                                     .where_("id", "=", ValueType::Int32(10)).unwrap()
                                     .finish();
                                    
    assert_eq!(query, "SELECT * FROM students s NATURAL JOIN grades g WHERE id = 10;");
}

#[test]
fn test_parentheses(){
    let query = QueryBuilder::select(vec!["*"]).unwrap()
                                                    .table("users")
                                                    .where_("grades", ">", ValueType::Int32(80)).unwrap()
                                                    .open_parenthesis(BracketType::And)
                                                    .and("height", ">", ValueType::Int32(170)).unwrap()
                                                    .or("weight", ">", ValueType::Int32(60)).unwrap()
                                                    .close_parenthesis().unwrap()
                                                    .finish();

    assert_eq!(query, "SELECT * FROM users WHERE grades > 80 AND ( AND height > 170 OR weight > 60);");

    let query = QueryBuilder::select(vec!["*"]).unwrap()
                                            .table("users")
                                            .where_("grades", ">", ValueType::Int32(80)).unwrap()
                                            .open_parenthesis_with(BracketType::And, "height", ">", ValueType::Int32(170)).unwrap()
                                            .or("weight", ">", ValueType::Int32(60)).unwrap()
                                            .close_parenthesis().unwrap()
                                            .finish();                                                  

    assert_eq!(query, "SELECT * FROM users WHERE grades > 80 AND (height > 170 OR weight > 60);");

    let query = QueryBuilder::select(vec!["*"]).unwrap()
                                    .table("users")
                                    .where_("grades", ">", ValueType::Int32(80)).unwrap()
                                    .open_parenthesis_with(BracketType::And, "height", ">", ValueType::Int32(170)).unwrap()
                                    .open_parenthesis_with(BracketType::Or, "weight", ">", ValueType::Int32(50)).unwrap()
                                    .and("weight", "<", ValueType::Int32(70)).unwrap()
                                    .close_parenthesis().unwrap()
                                    .close_parenthesis().unwrap()
                                    .finish();          

    assert_eq!(query, "SELECT * FROM users WHERE grades > 80 AND (height > 170 OR (weight > 50 AND weight < 70));");             
}
