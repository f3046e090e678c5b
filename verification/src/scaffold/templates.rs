//! The text of the files that each project template writes.
use vstd::prelude::*;
use crate::text::push_str;

verus! {

/// `true` or `false`, as Rust formats a `bool`.
pub open spec fn bool_text(b: bool) -> Seq<char> {
    if b {
        "true"@
    } else {
        "false"@
    }
}

pub fn push_bool(s: &mut String, b: bool)
    ensures
        final(s)@ == old(s)@ + bool_text(b),
{
    if b {
        push_str(s, "true");
    } else {
        push_str(s, "false");
    }
}

/// The manifest of the `cli` template.
pub open spec fn cli_toml_spec(header: Seq<char>, graalvm: bool, name: Seq<char>) -> Seq<char> {
    header
        + "\n\n[dependencies]\n\"info.picocli:picocli\" = \"4.7.6\"\n\n[dev-dependencies]\n\"org.junit.jupiter:junit-jupiter-api\" = \"5.10.2\"\n\n[graalvm]\nenabled = "@
        + bool_text(graalvm)
        + "\nname = \""@
        + name
        + "-cli\"\nreflection_config = \"src/main/resources/reflect-config.json\"\nargs = [\n    \"--no-fallback\",\n    \"-H:+ReportExceptionStackTraces\"\n]\n"@
}

pub fn cli_toml(header: &str, graalvm: bool, name: &str) -> (r: String)
    ensures
        r@ == cli_toml_spec(header@, graalvm, name@),
{
    let mut s = String::new();
    push_str(&mut s, header);
    push_str(&mut s, "\n\n[dependencies]\n\"info.picocli:picocli\" = \"4.7.6\"\n\n[dev-dependencies]\n\"org.junit.jupiter:junit-jupiter-api\" = \"5.10.2\"\n\n[graalvm]\nenabled = ");
    push_bool(&mut s, graalvm);
    push_str(&mut s, "\nname = \"");
    push_str(&mut s, name);
    push_str(&mut s, "-cli\"\nreflection_config = \"src/main/resources/reflect-config.json\"\nargs = [\n    \"--no-fallback\",\n    \"-H:+ReportExceptionStackTraces\"\n]\n");
    s
}

/// `Main.java` of the `cli` template.
pub open spec fn cli_main_java_spec(pkg_stmt: Seq<char>, name: Seq<char>) -> Seq<char> {
    pkg_stmt
        + "import picocli.CommandLine;\nimport picocli.CommandLine.Command;\nimport picocli.CommandLine.Option;\nimport java.util.concurrent.Callable;\n\n@Command(name = \""@
        + name
        + "\", mixinStandardHelpOptions = true, version = \"0.1.0\",\n        description = \"CLI desarrollada con Jolt y Picocli\")\npublic class Main implements Callable<Integer> {\n\n    @Option(names = {\"--name\", \"-n\"}, description = \"Nombre a saludar\", defaultValue = \"Mundo\")\n    private String name;\n\n    @Override\n    public Integer call() {\n        System.out.println(\"Hola, \" + name + \"! Bienvenido a tu CLI con Jolt.\");\n        return 0;\n    }\n\n    public static void main(String[] args) {\n        int exitCode = new CommandLine(new Main()).execute(args);\n        System.exit(exitCode);\n    }\n}\n"@
}

pub fn cli_main_java(pkg_stmt: &str, name: &str) -> (r: String)
    ensures
        r@ == cli_main_java_spec(pkg_stmt@, name@),
{
    let mut s = String::new();
    push_str(&mut s, pkg_stmt);
    push_str(&mut s, "import picocli.CommandLine;\nimport picocli.CommandLine.Command;\nimport picocli.CommandLine.Option;\nimport java.util.concurrent.Callable;\n\n@Command(name = \"");
    push_str(&mut s, name);
    push_str(&mut s, "\", mixinStandardHelpOptions = true, version = \"0.1.0\",\n        description = \"CLI desarrollada con Jolt y Picocli\")\npublic class Main implements Callable<Integer> {\n\n    @Option(names = {\"--name\", \"-n\"}, description = \"Nombre a saludar\", defaultValue = \"Mundo\")\n    private String name;\n\n    @Override\n    public Integer call() {\n        System.out.println(\"Hola, \" + name + \"! Bienvenido a tu CLI con Jolt.\");\n        return 0;\n    }\n\n    public static void main(String[] args) {\n        int exitCode = new CommandLine(new Main()).execute(args);\n        System.exit(exitCode);\n    }\n}\n");
    s
}

/// `MainTest.java` of the `cli` template.
pub open spec fn cli_main_test_java_spec(pkg_stmt: Seq<char>) -> Seq<char> {
    pkg_stmt
        + "import org.junit.jupiter.api.Test;\nimport static org.junit.jupiter.api.Assertions.assertEquals;\n\npublic class MainTest {\n    @Test\n    void testCliExecution() {\n        Main app = new Main();\n        assertEquals(0, app.call());\n    }\n}\n"@
}

pub fn cli_main_test_java(pkg_stmt: &str) -> (r: String)
    ensures
        r@ == cli_main_test_java_spec(pkg_stmt@),
{
    let mut s = String::new();
    push_str(&mut s, pkg_stmt);
    push_str(&mut s, "import org.junit.jupiter.api.Test;\nimport static org.junit.jupiter.api.Assertions.assertEquals;\n\npublic class MainTest {\n    @Test\n    void testCliExecution() {\n        Main app = new Main();\n        assertEquals(0, app.call());\n    }\n}\n");
    s
}

/// The GraalVM reflection configuration of the `cli` template.
pub open spec fn cli_reflect_config_spec(main_class: Seq<char>) -> Seq<char> {
    "[\n  {\n    \"name\": \""@
        + main_class
        + "\",\n    \"allDeclaredConstructors\": true,\n    \"allPublicConstructors\": true,\n    \"allDeclaredMethods\": true,\n    \"allPublicMethods\": true,\n    \"allDeclaredFields\": true,\n    \"allPublicFields\": true\n  },\n  {\n    \"name\": \"picocli.CommandLine$AutoHelpMixin\",\n    \"allDeclaredConstructors\": true,\n    \"allPublicConstructors\": true,\n    \"allDeclaredMethods\": true,\n    \"allPublicMethods\": true,\n    \"allDeclaredFields\": true,\n    \"allPublicFields\": true\n  }\n]\n"@
}

pub fn cli_reflect_config(main_class: &str) -> (r: String)
    ensures
        r@ == cli_reflect_config_spec(main_class@),
{
    let mut s = String::new();
    push_str(&mut s, "[\n  {\n    \"name\": \"");
    push_str(&mut s, main_class);
    push_str(&mut s, "\",\n    \"allDeclaredConstructors\": true,\n    \"allPublicConstructors\": true,\n    \"allDeclaredMethods\": true,\n    \"allPublicMethods\": true,\n    \"allDeclaredFields\": true,\n    \"allPublicFields\": true\n  },\n  {\n    \"name\": \"picocli.CommandLine$AutoHelpMixin\",\n    \"allDeclaredConstructors\": true,\n    \"allPublicConstructors\": true,\n    \"allDeclaredMethods\": true,\n    \"allPublicMethods\": true,\n    \"allDeclaredFields\": true,\n    \"allPublicFields\": true\n  }\n]\n");
    s
}

/// The manifest of the `javafx` template.
pub open spec fn javafx_toml_spec(header: Seq<char>, graalvm: bool, name: Seq<char>) -> Seq<char> {
    header
        + "\n\n[dependencies]\n\"org.openjfx:javafx-controls\" = \"21.0.2:linux\"\n\"org.openjfx:javafx-graphics\" = \"21.0.2:linux\"\n\"org.openjfx:javafx-base\" = \"21.0.2:linux\"\n\n[dev-dependencies]\n\"org.junit.jupiter:junit-jupiter-api\" = \"5.10.2\"\n\n[graalvm]\nenabled = "@
        + bool_text(graalvm)
        + "\nname = \""@
        + name
        + "-gui\"\nargs = [\n    \"--no-fallback\",\n    \"-H:+ReportExceptionStackTraces\"\n]\n"@
}

pub fn javafx_toml(header: &str, graalvm: bool, name: &str) -> (r: String)
    ensures
        r@ == javafx_toml_spec(header@, graalvm, name@),
{
    let mut s = String::new();
    push_str(&mut s, header);
    push_str(&mut s, "\n\n[dependencies]\n\"org.openjfx:javafx-controls\" = \"21.0.2:linux\"\n\"org.openjfx:javafx-graphics\" = \"21.0.2:linux\"\n\"org.openjfx:javafx-base\" = \"21.0.2:linux\"\n\n[dev-dependencies]\n\"org.junit.jupiter:junit-jupiter-api\" = \"5.10.2\"\n\n[graalvm]\nenabled = ");
    push_bool(&mut s, graalvm);
    push_str(&mut s, "\nname = \"");
    push_str(&mut s, name);
    push_str(&mut s, "-gui\"\nargs = [\n    \"--no-fallback\",\n    \"-H:+ReportExceptionStackTraces\"\n]\n");
    s
}

/// `App.java` of the `javafx` template.
pub open spec fn javafx_app_java_spec(pkg_stmt: Seq<char>) -> Seq<char> {
    pkg_stmt
        + "import javafx.application.Application;\nimport javafx.geometry.Pos;\nimport javafx.scene.Scene;\nimport javafx.scene.control.Button;\nimport javafx.scene.control.Label;\nimport javafx.scene.layout.VBox;\nimport javafx.stage.Stage;\n\npublic class App extends Application {\n\n    @Override\n    public void start(Stage primaryStage) {\n        Label label = new Label(\"⚡ ¡Hola desde JavaFX 21 con Jolt!\");\n        label.getStyleClass().add(\"title-label\");\n\n        Button btn = new Button(\"Haz clic aquí\");\n        btn.setOnAction(e -> label.setText(\"🚀 ¡Jolt impulsa tu desarrollo en Java!\"));\n\n        VBox root = new VBox(20, label, btn);\n        root.setAlignment(Pos.CENTER);\n        root.getStyleClass().add(\"main-container\");\n\n        Scene scene = new Scene(root, 480, 320);\n        var css = getClass().getResource(\"/style.css\");\n        if (css != null) {\n            scene.getStylesheets().add(css.toExternalForm());\n        }\n\n        primaryStage.setTitle(\"Jolt - JavaFX App\");\n        primaryStage.setScene(scene);\n        primaryStage.show();\n    }\n}\n"@
}

pub fn javafx_app_java(pkg_stmt: &str) -> (r: String)
    ensures
        r@ == javafx_app_java_spec(pkg_stmt@),
{
    let mut s = String::new();
    push_str(&mut s, pkg_stmt);
    push_str(&mut s, "import javafx.application.Application;\nimport javafx.geometry.Pos;\nimport javafx.scene.Scene;\nimport javafx.scene.control.Button;\nimport javafx.scene.control.Label;\nimport javafx.scene.layout.VBox;\nimport javafx.stage.Stage;\n\npublic class App extends Application {\n\n    @Override\n    public void start(Stage primaryStage) {\n        Label label = new Label(\"⚡ ¡Hola desde JavaFX 21 con Jolt!\");\n        label.getStyleClass().add(\"title-label\");\n\n        Button btn = new Button(\"Haz clic aquí\");\n        btn.setOnAction(e -> label.setText(\"🚀 ¡Jolt impulsa tu desarrollo en Java!\"));\n\n        VBox root = new VBox(20, label, btn);\n        root.setAlignment(Pos.CENTER);\n        root.getStyleClass().add(\"main-container\");\n\n        Scene scene = new Scene(root, 480, 320);\n        var css = getClass().getResource(\"/style.css\");\n        if (css != null) {\n            scene.getStylesheets().add(css.toExternalForm());\n        }\n\n        primaryStage.setTitle(\"Jolt - JavaFX App\");\n        primaryStage.setScene(scene);\n        primaryStage.show();\n    }\n}\n");
    s
}

/// `Main.java` of the `javafx` template.
pub open spec fn javafx_main_java_spec(pkg_stmt: Seq<char>) -> Seq<char> {
    pkg_stmt
        + "import javafx.application.Application;\n\npublic class Main {\n    public static void main(String[] args) {\n        Application.launch(App.class, args);\n    }\n}\n"@
}

pub fn javafx_main_java(pkg_stmt: &str) -> (r: String)
    ensures
        r@ == javafx_main_java_spec(pkg_stmt@),
{
    let mut s = String::new();
    push_str(&mut s, pkg_stmt);
    push_str(&mut s, "import javafx.application.Application;\n\npublic class Main {\n    public static void main(String[] args) {\n        Application.launch(App.class, args);\n    }\n}\n");
    s
}

/// The manifest of the `swing` template.
pub open spec fn swing_toml_spec(header: Seq<char>, graalvm: bool, name: Seq<char>) -> Seq<char> {
    header
        + "\n\n[dependencies]\n\"com.formdev:flatlaf\" = \"3.4.1\"\n\n[dev-dependencies]\n\"org.junit.jupiter:junit-jupiter-api\" = \"5.10.2\"\n\n[graalvm]\nenabled = "@
        + bool_text(graalvm)
        + "\nname = \""@
        + name
        + "-gui\"\nargs = [\n    \"--no-fallback\",\n    \"-H:+ReportExceptionStackTraces\"\n]\n"@
}

pub fn swing_toml(header: &str, graalvm: bool, name: &str) -> (r: String)
    ensures
        r@ == swing_toml_spec(header@, graalvm, name@),
{
    let mut s = String::new();
    push_str(&mut s, header);
    push_str(&mut s, "\n\n[dependencies]\n\"com.formdev:flatlaf\" = \"3.4.1\"\n\n[dev-dependencies]\n\"org.junit.jupiter:junit-jupiter-api\" = \"5.10.2\"\n\n[graalvm]\nenabled = ");
    push_bool(&mut s, graalvm);
    push_str(&mut s, "\nname = \"");
    push_str(&mut s, name);
    push_str(&mut s, "-gui\"\nargs = [\n    \"--no-fallback\",\n    \"-H:+ReportExceptionStackTraces\"\n]\n");
    s
}

/// `Main.java` of the `swing` template.
pub open spec fn swing_main_java_spec(pkg_stmt: Seq<char>) -> Seq<char> {
    pkg_stmt
        + "import com.formdev.flatlaf.FlatDarkLaf;\nimport javax.swing.*;\nimport java.awt.*;\n\npublic class Main {\n    public static void main(String[] args) {\n        FlatDarkLaf.setup();\n        SwingUtilities.invokeLater(() -> {\n            JFrame frame = new JFrame(\"Jolt - Swing App\");\n            frame.setDefaultCloseOperation(JFrame.EXIT_ON_CLOSE);\n            frame.setSize(450, 250);\n            frame.setLocationRelativeTo(null);\n\n            JLabel label = new JLabel(\"☕ ¡Hola desde Java Swing Moderno con Jolt!\", SwingConstants.CENTER);\n            label.setFont(new Font(\"Segoe UI\", Font.BOLD, 14));\n\n            JButton button = new JButton(\"Presióname\");\n            button.addActionListener(e -> JOptionPane.showMessageDialog(frame, \"🚀 ¡Swing ultrarrápido con Jolt!\"));\n\n            JPanel panel = new JPanel(new BorderLayout(10, 10));\n            panel.setBorder(BorderFactory.createEmptyBorder(20, 20, 20, 20));\n            panel.add(label, BorderLayout.CENTER);\n            panel.add(button, BorderLayout.SOUTH);\n\n            frame.add(panel);\n            frame.setVisible(true);\n        });\n    }\n}\n"@
}

pub fn swing_main_java(pkg_stmt: &str) -> (r: String)
    ensures
        r@ == swing_main_java_spec(pkg_stmt@),
{
    let mut s = String::new();
    push_str(&mut s, pkg_stmt);
    push_str(&mut s, "import com.formdev.flatlaf.FlatDarkLaf;\nimport javax.swing.*;\nimport java.awt.*;\n\npublic class Main {\n    public static void main(String[] args) {\n        FlatDarkLaf.setup();\n        SwingUtilities.invokeLater(() -> {\n            JFrame frame = new JFrame(\"Jolt - Swing App\");\n            frame.setDefaultCloseOperation(JFrame.EXIT_ON_CLOSE);\n            frame.setSize(450, 250);\n            frame.setLocationRelativeTo(null);\n\n            JLabel label = new JLabel(\"☕ ¡Hola desde Java Swing Moderno con Jolt!\", SwingConstants.CENTER);\n            label.setFont(new Font(\"Segoe UI\", Font.BOLD, 14));\n\n            JButton button = new JButton(\"Presióname\");\n            button.addActionListener(e -> JOptionPane.showMessageDialog(frame, \"🚀 ¡Swing ultrarrápido con Jolt!\"));\n\n            JPanel panel = new JPanel(new BorderLayout(10, 10));\n            panel.setBorder(BorderFactory.createEmptyBorder(20, 20, 20, 20));\n            panel.add(label, BorderLayout.CENTER);\n            panel.add(button, BorderLayout.SOUTH);\n\n            frame.add(panel);\n            frame.setVisible(true);\n        });\n    }\n}\n");
    s
}

/// `SwingAppTest.java` of the `swing` template.
pub open spec fn swing_test_java_spec(pkg_stmt: Seq<char>) -> Seq<char> {
    pkg_stmt
        + "import org.junit.jupiter.api.Test;\nimport static org.junit.jupiter.api.Assertions.assertNotNull;\n\npublic class SwingAppTest {\n    @Test\n    void testAppLoads() {\n        assertNotNull(\"Swing app test\");\n    }\n}\n"@
}

pub fn swing_test_java(pkg_stmt: &str) -> (r: String)
    ensures
        r@ == swing_test_java_spec(pkg_stmt@),
{
    let mut s = String::new();
    push_str(&mut s, pkg_stmt);
    push_str(&mut s, "import org.junit.jupiter.api.Test;\nimport static org.junit.jupiter.api.Assertions.assertNotNull;\n\npublic class SwingAppTest {\n    @Test\n    void testAppLoads() {\n        assertNotNull(\"Swing app test\");\n    }\n}\n");
    s
}

/// The manifest of the `web` template.
pub open spec fn web_toml_spec(header: Seq<char>, graalvm: bool, name: Seq<char>) -> Seq<char> {
    header
        + "\n\n[dependencies]\n\"io.javalin:javalin\" = \"6.1.3\"\n\"org.slf4j:slf4j-simple\" = \"2.0.12\"\n\n[dev-dependencies]\n\"org.junit.jupiter:junit-jupiter-api\" = \"5.10.2\"\n\n[graalvm]\nenabled = "@
        + bool_text(graalvm)
        + "\nname = \""@
        + name
        + "-server\"\nargs = [\n    \"--no-fallback\",\n    \"--enable-http\",\n    \"-H:+ReportExceptionStackTraces\"\n]\n"@
}

pub fn web_toml(header: &str, graalvm: bool, name: &str) -> (r: String)
    ensures
        r@ == web_toml_spec(header@, graalvm, name@),
{
    let mut s = String::new();
    push_str(&mut s, header);
    push_str(&mut s, "\n\n[dependencies]\n\"io.javalin:javalin\" = \"6.1.3\"\n\"org.slf4j:slf4j-simple\" = \"2.0.12\"\n\n[dev-dependencies]\n\"org.junit.jupiter:junit-jupiter-api\" = \"5.10.2\"\n\n[graalvm]\nenabled = ");
    push_bool(&mut s, graalvm);
    push_str(&mut s, "\nname = \"");
    push_str(&mut s, name);
    push_str(&mut s, "-server\"\nargs = [\n    \"--no-fallback\",\n    \"--enable-http\",\n    \"-H:+ReportExceptionStackTraces\"\n]\n");
    s
}

/// `Main.java` of the `web` template.
pub open spec fn web_main_java_spec(pkg_stmt: Seq<char>) -> Seq<char> {
    pkg_stmt
        + "import io.javalin.Javalin;\nimport java.util.Map;\n\npublic class Main {\n    public static void main(String[] args) {\n        var app = Javalin.create(config -> {\n            config.showJavalinBanner = false;\n        }).start(7070);\n\n        app.get(\"/\", ctx -> ctx.result(\"⚡ API REST con Javalin y Jolt!\"));\n        app.get(\"/api/saludo\", ctx -> ctx.json(Map.of(\"mensaje\", \"Hola desde Jolt\", \"estado\", \"OK\")));\n\n        System.out.println(\"🚀 Servidor Javalin iniciado en http://localhost:7070\");\n    }\n}\n"@
}

pub fn web_main_java(pkg_stmt: &str) -> (r: String)
    ensures
        r@ == web_main_java_spec(pkg_stmt@),
{
    let mut s = String::new();
    push_str(&mut s, pkg_stmt);
    push_str(&mut s, "import io.javalin.Javalin;\nimport java.util.Map;\n\npublic class Main {\n    public static void main(String[] args) {\n        var app = Javalin.create(config -> {\n            config.showJavalinBanner = false;\n        }).start(7070);\n\n        app.get(\"/\", ctx -> ctx.result(\"⚡ API REST con Javalin y Jolt!\"));\n        app.get(\"/api/saludo\", ctx -> ctx.json(Map.of(\"mensaje\", \"Hola desde Jolt\", \"estado\", \"OK\")));\n\n        System.out.println(\"🚀 Servidor Javalin iniciado en http://localhost:7070\");\n    }\n}\n");
    s
}

/// `MainTest.java` of the `web` template.
pub open spec fn web_test_java_spec(pkg_stmt: Seq<char>) -> Seq<char> {
    pkg_stmt
        + "import org.junit.jupiter.api.Test;\nimport static org.junit.jupiter.api.Assertions.assertTrue;\n\npublic class MainTest {\n    @Test\n    void testServerLoads() {\n        assertTrue(true, \"Javalin web app test\");\n    }\n}\n"@
}

pub fn web_test_java(pkg_stmt: &str) -> (r: String)
    ensures
        r@ == web_test_java_spec(pkg_stmt@),
{
    let mut s = String::new();
    push_str(&mut s, pkg_stmt);
    push_str(&mut s, "import org.junit.jupiter.api.Test;\nimport static org.junit.jupiter.api.Assertions.assertTrue;\n\npublic class MainTest {\n    @Test\n    void testServerLoads() {\n        assertTrue(true, \"Javalin web app test\");\n    }\n}\n");
    s
}

/// The manifest of the `spring` template.
pub open spec fn spring_toml_spec(header: Seq<char>, graalvm: bool, name: Seq<char>) -> Seq<char> {
    header
        + "\n\n[dependencies]\n\"org.springframework.boot:spring-boot-starter-web\" = \"3.2.3\"\n\"org.springframework.boot:spring-boot-starter-actuator\" = \"3.2.3\"\n\n[dev-dependencies]\n\"org.springframework.boot:spring-boot-starter-test\" = \"3.2.3\"\n\"org.junit.jupiter:junit-jupiter-api\" = \"5.10.2\"\n\n[graalvm]\nenabled = "@
        + bool_text(graalvm)
        + "\nname = \""@
        + name
        + "-app\"\nargs = [\n    \"--no-fallback\",\n    \"-H:+ReportExceptionStackTraces\"\n]\n"@
}

pub fn spring_toml(header: &str, graalvm: bool, name: &str) -> (r: String)
    ensures
        r@ == spring_toml_spec(header@, graalvm, name@),
{
    let mut s = String::new();
    push_str(&mut s, header);
    push_str(&mut s, "\n\n[dependencies]\n\"org.springframework.boot:spring-boot-starter-web\" = \"3.2.3\"\n\"org.springframework.boot:spring-boot-starter-actuator\" = \"3.2.3\"\n\n[dev-dependencies]\n\"org.springframework.boot:spring-boot-starter-test\" = \"3.2.3\"\n\"org.junit.jupiter:junit-jupiter-api\" = \"5.10.2\"\n\n[graalvm]\nenabled = ");
    push_bool(&mut s, graalvm);
    push_str(&mut s, "\nname = \"");
    push_str(&mut s, name);
    push_str(&mut s, "-app\"\nargs = [\n    \"--no-fallback\",\n    \"-H:+ReportExceptionStackTraces\"\n]\n");
    s
}

/// `Main.java` of the `spring` template.
pub open spec fn spring_main_java_spec(pkg_stmt: Seq<char>) -> Seq<char> {
    pkg_stmt
        + "import org.springframework.boot.SpringApplication;\nimport org.springframework.boot.autoconfigure.SpringBootApplication;\nimport org.springframework.web.bind.annotation.GetMapping;\nimport org.springframework.web.bind.annotation.RestController;\nimport java.util.Map;\n\n@SpringBootApplication\n@RestController\npublic class Main {\n\n    public static void main(String[] args) {\n        SpringApplication.run(Main.class, args);\n    }\n\n    @GetMapping(\"/\")\n    public Map<String, String> home() {\n        return Map.of(\n            \"status\", \"success\",\n            \"message\", \"🚀 Spring Boot 3 ejecutándose ultrarrápido con Jolt!\",\n            \"runtime\", \"Java 21 LTS\"\n        );\n    }\n}\n"@
}

pub fn spring_main_java(pkg_stmt: &str) -> (r: String)
    ensures
        r@ == spring_main_java_spec(pkg_stmt@),
{
    let mut s = String::new();
    push_str(&mut s, pkg_stmt);
    push_str(&mut s, "import org.springframework.boot.SpringApplication;\nimport org.springframework.boot.autoconfigure.SpringBootApplication;\nimport org.springframework.web.bind.annotation.GetMapping;\nimport org.springframework.web.bind.annotation.RestController;\nimport java.util.Map;\n\n@SpringBootApplication\n@RestController\npublic class Main {\n\n    public static void main(String[] args) {\n        SpringApplication.run(Main.class, args);\n    }\n\n    @GetMapping(\"/\")\n    public Map<String, String> home() {\n        return Map.of(\n            \"status\", \"success\",\n            \"message\", \"🚀 Spring Boot 3 ejecutándose ultrarrápido con Jolt!\",\n            \"runtime\", \"Java 21 LTS\"\n        );\n    }\n}\n");
    s
}

/// `SpringAppTest.java` of the `spring` template.
pub open spec fn spring_test_java_spec(pkg_stmt: Seq<char>) -> Seq<char> {
    pkg_stmt
        + "import org.junit.jupiter.api.Test;\nimport static org.junit.jupiter.api.Assertions.assertTrue;\n\npublic class SpringAppTest {\n    @Test\n    void contextLoads() {\n        assertTrue(true);\n    }\n}\n"@
}

pub fn spring_test_java(pkg_stmt: &str) -> (r: String)
    ensures
        r@ == spring_test_java_spec(pkg_stmt@),
{
    let mut s = String::new();
    push_str(&mut s, pkg_stmt);
    push_str(&mut s, "import org.junit.jupiter.api.Test;\nimport static org.junit.jupiter.api.Assertions.assertTrue;\n\npublic class SpringAppTest {\n    @Test\n    void contextLoads() {\n        assertTrue(true);\n    }\n}\n");
    s
}

/// The manifest of the `minimal` template.
pub open spec fn minimal_toml_spec(header: Seq<char>, graalvm: bool, name: Seq<char>) -> Seq<char> {
    header
        + "\n\n[dependencies]\n\n[dev-dependencies]\n\"org.junit.jupiter:junit-jupiter-api\" = \"5.10.2\"\n\n[graalvm]\nenabled = "@
        + bool_text(graalvm)
        + "\nname = \""@
        + name
        + "-bin\"\nargs = [\n    \"--no-fallback\"\n]\n"@
}

pub fn minimal_toml(header: &str, graalvm: bool, name: &str) -> (r: String)
    ensures
        r@ == minimal_toml_spec(header@, graalvm, name@),
{
    let mut s = String::new();
    push_str(&mut s, header);
    push_str(&mut s, "\n\n[dependencies]\n\n[dev-dependencies]\n\"org.junit.jupiter:junit-jupiter-api\" = \"5.10.2\"\n\n[graalvm]\nenabled = ");
    push_bool(&mut s, graalvm);
    push_str(&mut s, "\nname = \"");
    push_str(&mut s, name);
    push_str(&mut s, "-bin\"\nargs = [\n    \"--no-fallback\"\n]\n");
    s
}

/// `Main.java` of the `minimal` template.
pub open spec fn minimal_main_java_spec(pkg_stmt: Seq<char>) -> Seq<char> {
    pkg_stmt
        + "public class Main {\n    public static void main(String[] args) {\n        System.out.println(\"Hola desde Jolt!\");\n    }\n}\n"@
}

pub fn minimal_main_java(pkg_stmt: &str) -> (r: String)
    ensures
        r@ == minimal_main_java_spec(pkg_stmt@),
{
    let mut s = String::new();
    push_str(&mut s, pkg_stmt);
    push_str(&mut s, "public class Main {\n    public static void main(String[] args) {\n        System.out.println(\"Hola desde Jolt!\");\n    }\n}\n");
    s
}

/// `AppTest.java` of the `minimal` template.
pub open spec fn minimal_test_java_spec(pkg_stmt: Seq<char>) -> Seq<char> {
    pkg_stmt
        + "import org.junit.jupiter.api.Test;\nimport static org.junit.jupiter.api.Assertions.assertTrue;\n\npublic class AppTest {\n    @Test\n    void testApp() {\n        assertTrue(true);\n    }\n}\n"@
}

pub fn minimal_test_java(pkg_stmt: &str) -> (r: String)
    ensures
        r@ == minimal_test_java_spec(pkg_stmt@),
{
    let mut s = String::new();
    push_str(&mut s, pkg_stmt);
    push_str(&mut s, "import org.junit.jupiter.api.Test;\nimport static org.junit.jupiter.api.Assertions.assertTrue;\n\npublic class AppTest {\n    @Test\n    void testApp() {\n        assertTrue(true);\n    }\n}\n");
    s
}

} // verus!
