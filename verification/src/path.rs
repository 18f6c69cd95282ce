//! File paths as Unix has them: text whose components are separated by slashes, and
//! which starts at the root if it starts with one.
use vstd::prelude::*;

verus! {

/// Whether a path starts at the root.
pub open spec fn absolute(path: Seq<char>) -> bool {
    path.len() > 0 && path[0] == '/'
}

/// Whether the first component of a path is the current directory.
pub open spec fn starts_at_current(path: Seq<char>) -> bool {
    path.len() > 0 && path[0] == '.' && (path.len() == 1 || path[1] == '/')
}

/// Where the body of a path begins: behind the root or the current directory.
pub open spec fn body_start(path: Seq<char>) -> int {
    if absolute(path) || starts_at_current(path) {
        1
    } else {
        0
    }
}

/// Where the last slash of a path's body is, if there is one.
pub open spec fn last_slash(path: Seq<char>, body: int) -> Option<int>
    decreases path.len(),
{
    if path.len() <= body || path.len() == 0 {
        None
    } else if path.last() == '/' {
        Some(path.len() - 1)
    } else {
        last_slash(path.drop_last(), body)
    }
}

/// The last component of a path's body.
pub open spec fn last_component(path: Seq<char>, body: int) -> Seq<char> {
    match last_slash(path, body) {
        Some(i) => path.skip(i + 1),
        None => path.skip(body),
    }
}

/// A path without the last component of its body and the slash before it.
pub open spec fn without_last(path: Seq<char>, body: int) -> Seq<char> {
    match last_slash(path, body) {
        Some(i) => path.take(i),
        None => path.take(body),
    }
}

/// Whether a component stands for nothing: between two slashes, behind the last
/// one, or a dot.
pub open spec fn void_component(component: Seq<char>) -> bool {
    component.len() == 0 || component == seq!['.']
}

/// A path without the components at the end of its body that stand for nothing.
pub open spec fn normal_end(path: Seq<char>, body: int) -> Seq<char>
    decreases path.len(),
{
    if 0 <= body < path.len() && void_component(last_component(path, body)) {
        proof {
            lemma_last_slash(path, body);
        }
        normal_end(without_last(path, body), body)
    } else {
        path
    }
}

/// The directory that a path lies in: the path without its last component. The
/// root and the empty path lie in none.
pub open spec fn parent_of(path: Seq<char>) -> Option<Seq<char>> {
    let body = body_start(path);
    let whole = normal_end(path, body);
    if whole.len() > body {
        Some(normal_end(without_last(whole, body), body))
    } else if starts_at_current(path) {
        Some(seq![])
    } else {
        None
    }
}

/// A path taken from a directory. One that starts at the root stays as it is.
pub open spec fn joined(directory: Seq<char>, path: Seq<char>) -> Seq<char> {
    if absolute(path) {
        path
    } else if directory.len() == 0 || directory.last() == '/' {
        directory + path
    } else {
        directory + seq!['/'] + path
    }
}

/// Where a path of a configuration file leads: from the directory that the
/// file lies in, if the path does not start at the root.
pub open spec fn resolved(file: Seq<char>, path: Seq<char>) -> Seq<char> {
    if absolute(path) {
        path
    } else {
        match parent_of(file) {
            Some(directory) => joined(directory, path),
            None => path,
        }
    }
}

/// What the last slash of a path's body is.
pub proof fn lemma_last_slash(path: Seq<char>, body: int)
    requires
        0 <= body,
    ensures
        match last_slash(path, body) {
            Some(i) => body <= i < path.len() && path[i] == '/' && (forall|j: int|
                i < j < path.len() ==> path[j] != '/'),
            None => forall|j: int| body <= j < path.len() ==> path[j] != '/',
        },
    decreases path.len(),
{
    if path.len() > body && path.last() != '/' {
        lemma_last_slash(path.drop_last(), body);
        match last_slash(path, body) {
            Some(i) => {
                assert forall|j: int| i < j < path.len() implies path[j] != '/' by {
                    if j < path.len() - 1 {
                        assert(path.drop_last()[j] == path[j]);
                    }
                }
                assert(path.drop_last()[i] == path[i]);
            },
            None => {
                assert forall|j: int| body <= j < path.len() implies path[j] != '/' by {
                    if j < path.len() - 1 {
                        assert(path.drop_last()[j] == path[j]);
                    }
                }
            },
        }
    }
}

/// The parent undoes the join: what lies in a directory under a plain name has
/// that directory as its parent. The directory is written without anything at
/// its end that stands for nothing.
pub proof fn law_parent_undoes_join(directory: Seq<char>, name: Seq<char>)
    requires
        normal_end(directory, body_start(directory)) == directory,
        !name.contains('/'),
        !void_component(name),
    ensures
        parent_of(joined(directory, name)) == Some(directory),
{
    let path = joined(directory, name);
    let body = body_start(path);
    assert forall|i: int| 0 <= i < name.len() implies name[i] != '/' by {
        assert(name.contains(name[i]));
    }
    assert(name.len() == 1 ==> name[0] != '.') by {
        if name.len() == 1 && name[0] == '.' {
            assert(name =~= seq!['.']);
        }
    }
    let start = path.len() - name.len();
    assert(path.skip(start) =~= name);
    assert forall|i: int| start <= i < path.len() implies path[i] != '/' by {
        assert(path[i] == name[i - start]);
    }
    lemma_last_slash(path, body);
    if directory.len() == 0 {
        assert(path =~= name);
        assert(last_slash(path, body) is None);
        assert(path.take(0) =~= directory);
    } else if directory.last() == '/' {
        lemma_last_slash(directory, body_start(directory));
        if directory.len() > body_start(directory) {
            let slash = directory.len() - 1;
            assert(last_slash(directory, body_start(directory)) == Some(slash));
            assert(directory.skip(slash + 1).len() == 0);
            lemma_normal_end_length(directory.take(slash), body_start(directory));
        }
        assert(path.take(1) =~= directory);
        assert(path[0] == directory[0]);
        assert(last_slash(path, body) is None);
    } else {
        assert(path[directory.len() as int] == '/');
        assert(path[0] == directory[0]);
        if directory.len() > 1 {
            assert(path[1] == directory[1]);
        }
        assert(body == body_start(directory));
        assert(last_slash(path, body) == Some(directory.len() as int));
        assert(path.take(directory.len() as int) =~= directory);
    }
    assert(last_component(path, body) == name);
    assert(normal_end(path, body) == path);
}

/// Leaving out what stands for nothing makes no path longer.
proof fn lemma_normal_end_length(path: Seq<char>, body: int)
    requires
        0 <= body,
    ensures
        normal_end(path, body).len() <= path.len(),
    decreases path.len(),
{
    if body < path.len() && void_component(last_component(path, body)) {
        lemma_last_slash(path, body);
        lemma_normal_end_length(without_last(path, body), body);
    }
}

/// A path of a configuration file that starts at the root leads where it says,
/// wherever the file lies; another one leads into the directory of the file.
pub proof fn law_where_paths_lead(directory: Seq<char>, name: Seq<char>, path: Seq<char>)
    requires
        normal_end(directory, body_start(directory)) == directory,
        !name.contains('/'),
        !void_component(name),
    ensures
        absolute(path) ==> resolved(joined(directory, name), path) == path,
        !absolute(path) ==> resolved(joined(directory, name), path) == joined(directory, path),
{
    law_parent_undoes_join(directory, name);
}

/// Whether a path starts at the root.
pub fn is_absolute(path: &str) -> (result: bool)
    ensures
        result == absolute(path@),
{
    path.unicode_len() > 0 && path.get_char(0) == '/'
}

/// Where the last slash of the body of the first `end` characters is.
fn find_last_slash(path: &str, body: usize, end: usize) -> (slash: Option<usize>)
    requires
        body <= end <= path@.len(),
    ensures
        match slash {
            Some(i) => last_slash(path@.take(end as int), body as int) == Some(i as int),
            None => last_slash(path@.take(end as int), body as int) is None,
        },
        slash matches Some(i) ==> body <= i < end,
{
    let mut at: usize = end;
    while at > body
        invariant
            body <= at <= end <= path@.len(),
            last_slash(path@.take(end as int), body as int) == last_slash(
                path@.take(at as int),
                body as int,
            ),
        decreases at,
    {
        assert(path@.take(at as int).last() == path@[at - 1]);
        if path.get_char(at - 1) == '/' {
            return Some(at - 1);
        }
        assert(path@.take(at as int).drop_last() == path@.take(at - 1));
        at -= 1;
    }
    None
}

/// The length of what is left of the first `end` characters without the
/// components at their end that stand for nothing.
fn find_normal_end(path: &str, body: usize, end: usize) -> (result: usize)
    requires
        body <= end <= path@.len(),
    ensures
        body <= result <= end,
        path@.take(result as int) == normal_end(path@.take(end as int), body as int),
{
    let mut at: usize = end;
    while at > body
        invariant
            body <= at <= end <= path@.len(),
            normal_end(path@.take(end as int), body as int) == normal_end(
                path@.take(at as int),
                body as int,
            ),
        decreases at,
    {
        let ghost whole = path@.take(at as int);
        let slash: Option<usize> = find_last_slash(path, body, at);
        let start: usize = match slash {
            Some(i) => i + 1,
            None => body,
        };
        let cut: usize = match slash {
            Some(i) => i,
            None => body,
        };
        let void: bool = start == at || (start + 1 == at && path.get_char(start) == '.');
        assert(last_component(whole, body as int) == path@.subrange(start as int, at as int));
        assert(without_last(whole, body as int) == path@.take(cut as int));
        assert(void == void_component(last_component(whole, body as int))) by {
            if start + 1 == at {
                assert(path@.subrange(start as int, at as int) =~= seq![path@[start as int]]);
                assert(path@.subrange(start as int, at as int)[0] == path@[start as int]);
                assert(seq!['.'][0] == '.');
            }
        }
        if !void {
            return at;
        }
        at = cut;
    }
    at
}

/// The directory that a path lies in, if there is one.
pub fn parent(path: &str) -> (directory: Option<String>)
    ensures
        crate::text::optional_text(directory) == parent_of(path@),
{
    let length: usize = path.unicode_len();
    let current: bool = length > 0 && path.get_char(0) == '.' && (length == 1 || path.get_char(1)
        == '/');
    let body: usize = if is_absolute(path) || current {
        1
    } else {
        0
    };
    assert(path@.take(length as int) == path@);
    let whole: usize = find_normal_end(path, body, length);
    if whole > body {
        let cut: usize = match find_last_slash(path, body, whole) {
            Some(i) => i,
            None => body,
        };
        assert(without_last(path@.take(whole as int), body as int) == path@.take(cut as int));
        let end: usize = find_normal_end(path, body, cut);
        assert(path@.subrange(0, end as int) == path@.take(end as int));
        Some(path.substring_char(0, end).to_owned())
    } else if current {
        Some(String::new())
    } else {
        None
    }
}

/// A path taken from a directory.
pub fn join(directory: &str, path: &str) -> (result: String)
    ensures
        result@ == joined(directory@, path@),
{
    if is_absolute(path) {
        return path.to_owned();
    }
    let length: usize = directory.unicode_len();
    let mut result = directory.to_owned();
    if length > 0 && directory.get_char(length - 1) != '/' {
        proof {
            reveal_strlit("/");
            assert("/"@ =~= seq!['/']);
        }
        result.append("/");
    }
    result.append(path);
    result
}

/// Where a path of a configuration file leads.
pub fn resolve(file: &str, path: &str) -> (result: String)
    ensures
        result@ == resolved(file@, path@),
{
    if is_absolute(path) {
        return path.to_owned();
    }
    match parent(file) {
        Some(directory) => join(directory.as_str(), path),
        None => path.to_owned(),
    }
}

/// A path that starts with a slash is taken as it is. Any other is put behind the
/// directory, character by character, with a slash between them unless the
/// directory is empty or ends with one.
pub proof fn law_joined(directory: Seq<char>, path: Seq<char>)
    ensures
        path.len() > 0 && path[0] == '/' ==> joined(directory, path) == path,
        !(path.len() > 0 && path[0] == '/') ==> {
            let result = joined(directory, path);
            let slash: int = if directory.len() > 0 && directory.last() != '/' {
                1
            } else {
                0
            };
            &&& result.len() == directory.len() + slash + path.len()
            &&& forall|i: int| 0 <= i < directory.len() ==> #[trigger] result[i] == directory[i]
            &&& slash == 1 ==> result[directory.len() as int] == '/'
            &&& forall|i: int|
                0 <= i < path.len() ==> #[trigger] path[i] == result[directory.len() + slash + i]
        },
{
}

/// Where a path of a configuration file leads: where it says if it starts with a
/// slash or if the file lies in no directory, and otherwise behind the directory of
/// the file, character by character.
pub proof fn law_resolved(file: Seq<char>, path: Seq<char>, directory: Seq<char>)
    ensures
        path.len() > 0 && path[0] == '/' ==> resolved(file, path) == path,
        parent_of(file) is None ==> resolved(file, path) == path,
        !(path.len() > 0 && path[0] == '/') && parent_of(file) == Some(directory) ==> {
            let result = resolved(file, path);
            let slash: int = if directory.len() > 0 && directory.last() != '/' {
                1
            } else {
                0
            };
            &&& result.len() == directory.len() + slash + path.len()
            &&& forall|i: int| 0 <= i < directory.len() ==> #[trigger] result[i] == directory[i]
            &&& slash == 1 ==> result[directory.len() as int] == '/'
            &&& forall|i: int|
                0 <= i < path.len() ==> #[trigger] path[i] == result[directory.len() + slash + i]
        },
        absolute(path) <==> path.len() > 0 && path[0] == '/',
{
    law_joined(directory, path);
}

/// A slash, or a slash and a dot, at the end of a path stand for nothing.
proof fn lemma_void_end(path: Seq<char>, body: int)
    requires
        0 <= body <= path.len(),
    ensures
        normal_end(path + seq!['/'], body) == normal_end(path, body),
        normal_end(path + seq!['/', '.'], body) == normal_end(path, body),
{
    let slashed = path + seq!['/'];
    assert(slashed.last() == '/');
    assert(last_slash(slashed, body) == Some(path.len() as int));
    assert(slashed.skip(path.len() as int + 1).len() == 0);
    assert(slashed.take(path.len() as int) =~= path);
    assert(normal_end(slashed, body) == normal_end(path, body));
    let dotted = path + seq!['/', '.'];
    assert(dotted.last() == '.');
    assert(dotted.drop_last() =~= slashed);
    assert(last_slash(dotted, body) == Some(path.len() as int));
    assert(dotted.skip(path.len() as int + 1) =~= seq!['.']);
    assert(dotted.take(path.len() as int) =~= path);
}

/// What lies under a plain name in a directory lies in that directory, without
/// what stands for nothing at its end.
proof fn lemma_parent_of_entry(directory: Seq<char>, name: Seq<char>)
    requires
        directory.len() > 0,
        name.len() > 0,
        !name.contains('/'),
        !(name.len() == 1 && name[0] == '.'),
    ensures
        parent_of(directory + seq!['/'] + name) == Some(
            normal_end(directory, body_start(directory)),
        ),
{
    let path = directory + seq!['/'] + name;
    let body = body_start(path);
    assert(path[0] == directory[0]);
    if directory.len() > 1 {
        assert(path[1] == directory[1]);
    } else {
        assert(path[1] == '/');
    }
    assert(body == body_start(directory));
    let slash = directory.len() as int;
    assert(path[slash] == '/');
    assert forall|i: int| slash < i < path.len() implies path[i] != '/' by {
        assert(path[i] == name[i - slash - 1]);
        assert(name.contains(name[i - slash - 1]));
    }
    lemma_last_slash(path, body);
    assert(last_slash(path, body) == Some(slash));
    assert(path.skip(slash + 1) =~= name);
    assert(path.take(slash) =~= directory);
    assert(!void_component(name)) by {
        if name == seq!['.'] {
            assert(name[0] == '.');
        }
    }
    assert(normal_end(path, body) == path);
}

/// The directory that a path lies in, for every way to build a path: nothing and
/// the root lie in none, the current directory and a plain name in the empty path,
/// and a slash, or a slash and a dot, at the end of a path change nothing.
pub proof fn law_parent_of_ends(path: Seq<char>, name: Seq<char>)
    requires
        name.len() > 0,
        !name.contains('/'),
        !(name.len() == 1 && name[0] == '.'),
    ensures
        parent_of(Seq::empty()) is None,
        parent_of(seq!['/']) is None,
        parent_of(seq!['.']) == Some(Seq::<char>::empty()),
        parent_of(name) == Some(Seq::<char>::empty()),
        parent_of(path + seq!['/']) == parent_of(path),
        parent_of(path + seq!['/', '.']) == parent_of(path),
{
    assert forall|i: int| 0 <= i < name.len() implies name[i] != '/' by {
        assert(name.contains(name[i]));
    }
    assert(body_start(name) == 0);
    lemma_last_slash(name, 0);
    assert(last_slash(name, 0) is None);
    assert(name.skip(0) =~= name);
    assert(name.take(0) =~= Seq::<char>::empty());
    assert(!void_component(name)) by {
        if name == seq!['.'] {
            assert(name[0] == '.');
        }
    }
    assert(normal_end(name, 0) == name);
    let slashed = path + seq!['/'];
    let dotted = path + seq!['/', '.'];
    if path.len() > 0 {
        assert(slashed[0] == path[0] && dotted[0] == path[0]);
        if path.len() > 1 {
            assert(slashed[1] == path[1] && dotted[1] == path[1]);
        } else {
            assert(slashed[1] == '/' && dotted[1] == '/');
        }
        assert(body_start(slashed) == body_start(path));
        assert(body_start(dotted) == body_start(path));
        assert(starts_at_current(slashed) == starts_at_current(path));
        assert(starts_at_current(dotted) == starts_at_current(path));
        lemma_void_end(path, body_start(path));
    } else {
        assert(path =~= Seq::<char>::empty());
        assert(slashed =~= seq!['/']);
        assert(dotted =~= seq!['/', '.']);
        assert(dotted.drop_last() =~= seq!['/']);
        assert(last_slash(dotted, 1) == last_slash(dotted.drop_last(), 1));
        assert(last_slash(dotted, 1) is None);
        assert(dotted.skip(1) =~= seq!['.']);
        assert(dotted.take(1) =~= seq!['/']);
        assert(normal_end(dotted, 1) == normal_end(seq!['/'], 1));
    }
}

/// What lies under a plain name in a directory lies in that directory: in the root
/// if the directory is the root, and otherwise in the directory as it is written,
/// but for slashes, and dots behind slashes, at its end.
pub proof fn law_parent_of_entries(directory: Seq<char>, name: Seq<char>)
    requires
        name.len() > 0,
        !name.contains('/'),
        !(name.len() == 1 && name[0] == '.'),
    ensures
        parent_of(seq!['/'] + name) == Some(seq!['/']),
        directory.len() > 0 && directory.last() != '/' && !(directory.len() > 1
            && directory.last() == '.' && directory[directory.len() - 2] == '/') ==> parent_of(
            directory + seq!['/'] + name,
        ) == Some(directory),
        parent_of(directory + seq!['/', '/'] + name) == parent_of(directory + seq!['/'] + name),
        parent_of(directory + seq!['/', '.', '/'] + name) == parent_of(
            directory + seq!['/'] + name,
        ),
{
    let root = seq!['/'];
    let under_root = root + name;
    assert forall|i: int| 1 <= i < under_root.len() implies under_root[i] != '/' by {
        assert(under_root[i] == name[i - 1]);
        assert(name.contains(name[i - 1]));
    }
    lemma_last_slash(under_root, 1);
    assert(last_slash(under_root, 1) is None);
    assert(under_root.skip(1) =~= name);
    assert(under_root.take(1) =~= root);
    assert(!void_component(name)) by {
        if name == seq!['.'] {
            assert(name[0] == '.');
        }
    }
    assert(normal_end(under_root, 1) == under_root);
    assert(normal_end(root, 1) == root);
    assert(parent_of(under_root) == Some(root));
    let slashed = directory + seq!['/'];
    let dotted = directory + seq!['/', '.'];
    assert(directory + seq!['/', '/'] + name =~= slashed + seq!['/'] + name);
    assert(directory + seq!['/', '.', '/'] + name =~= dotted + seq!['/'] + name);
    lemma_parent_of_entry(slashed, name);
    lemma_parent_of_entry(dotted, name);
    if directory.len() > 0 {
        let body = body_start(directory);
        assert(slashed[0] == directory[0] && dotted[0] == directory[0]);
        if directory.len() > 1 {
            assert(slashed[1] == directory[1] && dotted[1] == directory[1]);
        } else {
            assert(slashed[1] == '/' && dotted[1] == '/');
        }
        assert(body_start(slashed) == body && body_start(dotted) == body);
        lemma_void_end(directory, body);
        lemma_parent_of_entry(directory, name);
        if directory.last() != '/' && !(directory.len() > 1 && directory.last() == '.'
            && directory[directory.len() - 2] == '/') {
            lemma_last_slash(directory, body);
            let last = last_component(directory, body);
            if body < directory.len() {
                assert(last.len() > 0);
                assert(last.last() == directory.last());
                if last == seq!['.'] {
                    assert(last.len() == 1);
                    assert(directory.last() == '.');
                    match last_slash(directory, body) {
                        Some(i) => {
                            assert(i == directory.len() - 2);
                        },
                        None => {
                            assert(body == directory.len() - 1);
                        },
                    }
                    assert(false);
                }
            }
            assert(normal_end(directory, body) == directory);
        }
    } else {
        assert(slashed =~= root);
        assert(dotted =~= seq!['/', '.']);
        assert(directory + seq!['/'] + name =~= under_root);
        assert(dotted.drop_last() =~= root);
        assert(last_slash(dotted, 1) == last_slash(dotted.drop_last(), 1));
        assert(last_slash(dotted, 1) is None);
        assert(dotted.skip(1) =~= seq!['.']);
        assert(dotted.take(1) =~= root);
        assert(normal_end(dotted, 1) == normal_end(root, 1));
    }
}

} // verus!
