use vc::parser::parse_code;
use vc::scanner::Scanner;

fn unparse(src: &str) -> String {
    parse_code(Scanner::new(src.to_string())).expect("parses").print_unparsed_program()
}

const FIB: &str = "void main() {
        int n;
        int i;
        int current;
        int next;
        int twoaway;
        putString(\"How many Fibonacci numbers do you want to compute? \");
        (n = getInt());
        if ((n <= 0))
                putString(\"The number should be positive.\");
        else {
                putString(\"\\tn\\t\\tfib(n)\\n\\t-\\t\\t-----\\n\");
                (next = (current = 1));
                for ((i = 1); (i <= n); (i = (i + 1))) {
                        putString(\"\\t\");
                        putInt(i);
                        putString(\"\\t\\t\");
                        putIntLn(current);
                        (twoaway = (current + next));
                        (current = next);
                        (next = twoaway);
                }
        }
}
";

const PRIME: &str = "boolean isPrime(int n) {
        int i;
        if ((n < 2))
                return false;
        for ((i = 2); ((i * i) <= n); (i = (i + 1)))
                if (((n - ((n / i) * i)) == 0))
                        return false;
        return true;
}
void main() {
        int k;
        k = 0;
        while ((k < 20)) {
                if (isPrime(k))
                        putIntLn(k);
                (k = (k + 1));
        }
}
";

const SORT: &str = "int a[5] = {5, 1, 4, 2, 3};
void sort(int v[], int n) {
        int i;
        int j;
        int t;
        for ((i = 0); (i < n); (i = (i + 1)))
                for ((j = 0); (j < ((n - 1) - i)); (j = (j + 1)))
                        if ((v[j] > v[(j + 1)])) {
                                (t = v[j]);
                                (v[j] = v[(j + 1)]);
                                (v[(j + 1)] = t);
                        }
}
int main() {
        sort(a, 5);
        return 0;
}
";

const NUMERICS: &str = "float x = 1.5e3;
float y = .25;
int z = 42;
boolean b = true;
float f(float p, boolean q) {
        if (!q)
                return -p;
        else
                return +(p * 2.0);
        ;
        while (q) {
                break;
                continue;
        }
        for (; ; ) {
        }
        return ((x != y) && (z >= 1));
}
";

#[test]
fn test_unparsing_fibonacii_numbers() {
    assert_eq!(unparse(FIB), FIB);
}

#[test]
fn test_unparsing_prime_test() {
    // `k = 0;` reads back with its assignment parenthesised.
    let once = unparse(PRIME);
    assert_eq!(once, PRIME.replace("        k = 0;", "        (k = 0);"));
    assert_eq!(unparse(&once), once);
}

#[test]
fn test_unparsing_bubble_sort() {
    assert_eq!(unparse(SORT), SORT);
}

#[test]
fn test_numerics() {
    assert_eq!(unparse(NUMERICS), NUMERICS);
}

#[test]
fn unparse_then_reparse_gives_the_same_tree() {
    let sources = [
        FIB,
        PRIME,
        SORT,
        NUMERICS,
        "int i;",
        "int a[10];",
        "void main() { return; }",
        "int f(int x, float y[]) { if (x) y[0] = 1; else if (x - 1) y[1] = 2; return x * (y[0] + 1); }",
        "void g() { int a = 1, b[2] = {a, 2}; while (a < 10) a = a + b[0] * -b[1] / 3; }",
        "boolean h() { for (;;) { break; } return !true || false && 1 != 2; }",
        "void s() { putString(\"a\\tb\\\"c\"); }",
    ];
    for src in sources {
        let first = parse_code(Scanner::new(src.to_string())).unwrap();
        let text = first.print_unparsed_program();
        let second = parse_code(Scanner::new(text.clone())).unwrap();
        // The tree dump leaves positions out: equal dumps, equal trees.
        assert_eq!(second.print_program(), first.print_program(), "source: {}", src);
        assert_eq!(second.print_unparsed_program(), text, "source: {}", src);
    }
}

#[test]
fn unparse_small_programs() {
    assert_eq!(unparse("int i;"), "int i;\n");
    assert_eq!(unparse("int a[10];"), "int a[10];\n");
    assert_eq!(unparse("void main() { return; }"), "void main() {\n        return;\n}\n");
    assert_eq!(unparse("int x = 1 + 2 * 3 + 4;"), "int x = ((1 + (2 * 3)) + 4);\n");
    assert_eq!(
        unparse("void f() { if (x) y = 1; else if (z) y = 2; }"),
        "void f() {\n        if (x)\n                (y = 1);\n        else\n                if (z)\n                        (y = 2);\n}\n"
    );
}
